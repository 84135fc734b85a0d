use quietude::ordering::coords_before;
use quietude::types::{
    Coords2D, Coords3D, Coords4D, Direction3D, LineSegment2D, LineSegment3D,
};

#[test]
fn test_distance_from() {
    let coords_1 = Coords3D(3, 9, 8);
    let coords_2 = Coords3D(6, 4, 4);

    let distance = coords_1.distance_from(&coords_2) as f64 / 1000.0;
    assert!(distance > 9.95 && distance < 10.05);
}

#[test]
fn test_intersects() {
    let start = Coords3D(0, 0, 0);
    let end = Coords3D(5, 10, 0);
    let line_segment = LineSegment3D { start, end };
    let intersections = vec![
        Coords3D(0, 0, 0),
        Coords3D(0, 1, 0),
        Coords3D(1, 1, 0),
        Coords3D(1, 2, 0),
        Coords3D(1, 3, 0),
        Coords3D(2, 3, 0),
        Coords3D(2, 4, 0),
        Coords3D(2, 5, 0),
        Coords3D(3, 5, 0),
        Coords3D(3, 6, 0),
        Coords3D(3, 7, 0),
        Coords3D(4, 7, 0),
        Coords3D(4, 8, 0),
        Coords3D(4, 9, 0),
        Coords3D(5, 9, 0),
        Coords3D(5, 10, 0),
    ];

    assert_eq!(intersections, line_segment.intersects());
}

#[test]
fn test_partial_cmp_coords_3d() {
    assert!(Coords3D(5, 5, 1) > Coords3D(6, 6, 0));
    assert!(Coords3D(5, 1, 8) > Coords3D(6, 0, 8));
    assert!(Coords3D(7, 9, 2) > Coords3D(6, 9, 2));

    assert!(!(Coords3D(5, 5, 1) < Coords3D(6, 6, 0)));
    assert!(!(Coords3D(5, 1, 8) < Coords3D(6, 0, 8)));
    assert!(!(Coords3D(7, 9, 2) < Coords3D(6, 9, 2)));
}

#[test]
fn coords_order_is_total_on_samples() {
    let cells = vec![
        Coords3D(0, 0, 0),
        Coords3D(1, 0, 0),
        Coords3D(0, 1, 0),
        Coords3D(0, 0, 1),
        Coords3D(-3, 2, 1),
        Coords3D(5, -7, -1),
    ];
    for a in &cells {
        for b in &cells {
            let less = coords_before(a, b);
            let greater = coords_before(b, a);
            let equal = a == b;
            let holding = [less, equal, greater].iter().filter(|held| **held).count();
            assert_eq!(holding, 1);
            assert_eq!(less, a < b);
            assert_eq!(greater, a > b);
            for c in &cells {
                if coords_before(a, b) && coords_before(b, c) {
                    assert!(coords_before(a, c));
                }
            }
        }
    }
    assert_eq!(
        Coords3D(1, 2, 3).partial_cmp(&Coords3D(1, 2, 3)),
        Some(std::cmp::Ordering::Equal)
    );
}

#[test]
fn distance_counts_thousandths() {
    let origin = Coords3D(0, 0, 0);
    assert_eq!(origin.distance_from(&origin), 0);
    assert_eq!(origin.distance_from(&Coords3D(1, 0, 0)), 1000);
    assert_eq!(origin.distance_from(&Coords3D(0, 1, 0)), 1000);
    assert_eq!(origin.distance_from(&Coords3D(0, 0, 1)), 1000);
    assert_eq!(origin.distance_from(&Coords3D(1, 0, 1)), 1414);
    assert_eq!(origin.distance_from(&Coords3D(1, 1, 0)), 2000);
    assert_eq!(origin.distance_from(&Coords3D(3, -2, 4)), 7000);
    assert_eq!(Coords3D(3, -2, 4).distance_from(&origin), 7000);
    assert_eq!(
        Coords3D(i32::MIN, i32::MIN, i32::MIN).distance_from(&Coords3D(
            i32::MAX,
            i32::MAX,
            i32::MAX
        )),
        6_074_000_998_537 + 4_294_967_295_000
    );
}

#[test]
fn invert_is_its_own_inverse() {
    let pairs = [
        (Direction3D::North, Direction3D::South),
        (Direction3D::Northeast, Direction3D::Southwest),
        (Direction3D::Northwest, Direction3D::Southeast),
        (Direction3D::East, Direction3D::West),
        (Direction3D::Up, Direction3D::Down),
    ];
    for (a, b) in pairs {
        let mut d = a;
        d.invert();
        assert_eq!(d, b);
        d.invert();
        assert_eq!(d, a);
        let mut d = b;
        d.invert();
        assert_eq!(d, a);
    }
}

#[test]
fn move_in_direction_steps_along_the_axes() {
    let cases = [
        (Direction3D::East, Coords3D(1, 0, 0)),
        (Direction3D::West, Coords3D(-1, 0, 0)),
        (Direction3D::South, Coords3D(0, 1, 0)),
        (Direction3D::North, Coords3D(0, -1, 0)),
        (Direction3D::Up, Coords3D(0, 0, 1)),
        (Direction3D::Down, Coords3D(0, 0, -1)),
        (Direction3D::Northeast, Coords3D(1, -1, 0)),
        (Direction3D::Northwest, Coords3D(-1, -1, 0)),
        (Direction3D::Southeast, Coords3D(1, 1, 0)),
        (Direction3D::Southwest, Coords3D(-1, 1, 0)),
    ];
    for (direction, expected) in cases {
        let mut cell = Coords3D(0, 0, 0);
        cell.move_in_direction(&direction);
        assert_eq!(cell, expected);
        assert_eq!(Coords3D(0, 0, 0).step(&direction), Some(expected));
    }
    assert_eq!(Coords3D(i32::MAX, 0, 0).step(&Direction3D::East), None);
    assert_eq!(Coords3D(0, i32::MIN, 0).step(&Direction3D::Northwest), None);
    assert_eq!(Coords3D(0, 0, i32::MAX).step(&Direction3D::Up), None);
}

#[test]
fn direction_to_names_the_octant_of_the_offset() {
    let origin = Coords3D(0, 0, 0);
    let cases = [
        (Coords3D(0, 5, 0), Direction3D::South),
        (Coords3D(2, 5, 0), Direction3D::South),
        (Coords3D(3, 5, 0), Direction3D::Southeast),
        (Coords3D(-3, 5, 0), Direction3D::Southwest),
        (Coords3D(-2, 4, 0), Direction3D::South),
        (Coords3D(0, -5, 0), Direction3D::North),
        (Coords3D(2, -5, 0), Direction3D::North),
        (Coords3D(3, -5, 0), Direction3D::Northeast),
        (Coords3D(-3, -5, 0), Direction3D::Northwest),
        (Coords3D(3, -3, 0), Direction3D::Northeast),
        (Coords3D(-3, -3, 0), Direction3D::Northwest),
        (Coords3D(5, 0, 0), Direction3D::East),
        (Coords3D(5, 2, 0), Direction3D::East),
        (Coords3D(5, 3, 0), Direction3D::Southeast),
        (Coords3D(5, -3, 0), Direction3D::Northeast),
        (Coords3D(3, 3, 0), Direction3D::Southeast),
        (Coords3D(-5, 0, 0), Direction3D::West),
        (Coords3D(-5, 2, 0), Direction3D::West),
        (Coords3D(-5, 3, 0), Direction3D::Southwest),
        (Coords3D(-5, -3, 0), Direction3D::Northwest),
        (Coords3D(-3, 3, 0), Direction3D::Southwest),
        (Coords3D(0, 0, 4), Direction3D::Up),
        (Coords3D(0, 0, -4), Direction3D::Down),
        (Coords3D(0, 0, 0), Direction3D::Northwest),
        (Coords3D(1, 0, 7), Direction3D::East),
    ];
    for (cell, expected) in cases {
        assert_eq!(cell.direction_to(&origin), expected, "{:?}", cell);
    }
    assert_eq!(
        Coords3D(i32::MAX, 0, 0).direction_to(&Coords3D(i32::MIN, 0, 0)),
        Direction3D::East
    );
}

#[test]
fn intersects_walks_from_start_to_end() {
    let same = LineSegment3D { start: Coords3D(2, 3, 1), end: Coords3D(2, 3, 1) };
    assert_eq!(same.intersects(), vec![Coords3D(2, 3, 1)]);

    let back = LineSegment3D { start: Coords3D(0, 0, 0), end: Coords3D(-3, 0, 0) };
    assert_eq!(
        back.intersects(),
        vec![Coords3D(0, 0, 0), Coords3D(-1, 0, 0), Coords3D(-2, 0, 0), Coords3D(-3, 0, 0)]
    );

    let up = LineSegment3D { start: Coords3D(0, 0, 0), end: Coords3D(0, 0, 1) };
    assert_eq!(up.intersects(), vec![Coords3D(0, 0, 0), Coords3D(0, 0, 1)]);

    let far = LineSegment3D { start: Coords3D(0, 0, 0), end: Coords3D(200, 0, 0) };
    let cells = far.intersects();
    assert_eq!(cells.len(), 100);
    assert_eq!(cells[0], Coords3D(2, 0, 0));
    assert_eq!(cells[99], Coords3D(200, 0, 0));

    let flat = LineSegment2D { start: Coords2D(0, 0), end: Coords2D(2, -1) };
    assert_eq!(
        flat.intersects(),
        vec![Coords2D(0, 0), Coords2D(1, 0), Coords2D(1, -1), Coords2D(2, -1)]
    );
}

#[test]
fn coords4d_to_str_separates_by_commas() {
    assert_eq!(Coords4D(0, 0, 0, 0).to_str(), "0,0,0,0");
    assert_eq!(Coords4D(1, -2, 30, -405).to_str(), "1,-2,30,-405");
    assert_eq!(
        Coords4D(i32::MAX, i32::MIN, 7, 10).to_str(),
        "2147483647,-2147483648,7,10"
    );
}

#[test]
fn defaults_are_the_origin() {
    assert_eq!(Coords3D::default(), Coords3D(0, 0, 0));
    assert_eq!(Coords4D::default(), Coords4D(0, 0, 0, 0));
    assert_eq!(Coords2D::default(), Coords2D(0, 0));
}
