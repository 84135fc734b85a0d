//! The names under which worlds, chunks and dialogues are kept.

use vstd::prelude::*;
use vstd::string::StringExecFns;
use crate::constants::{SAVE_EXTENSION, WORLD_DIR_NAME, WORLD_FILENAME};
use crate::types::Coords4D;
use crate::utils::{decimal, spec_decimal};

verus! {

impl Coords4D {
    /// The four coordinates written to the base ten, with commas between.
    pub open spec fn spec_to_str(self) -> Seq<char> {
        spec_decimal(self.0 as int) + seq![','] + spec_decimal(self.1 as int) + seq![',']
            + spec_decimal(self.2 as int) + seq![','] + spec_decimal(self.3 as int)
    }

    /// The four coordinates written to the base ten, with commas between.
    pub fn to_str(&self) -> (text: String)
        ensures
            text@ == self.spec_to_str(),
    {
        proof {
            reveal_strlit(",");
            assert(","@ =~= seq![',']);
        }
        let mut text = decimal(self.0 as i64);
        text.append(",");
        text.append(decimal(self.1 as i64).as_str());
        text.append(",");
        text.append(decimal(self.2 as i64).as_str());
        text.append(",");
        text.append(decimal(self.3 as i64).as_str());
        text
    }
}

/// The name of the file of the chunk at `coords`, below the directory of a
/// profile.
pub open spec fn spec_chunk_path(coords: Coords4D) -> Seq<char> {
    WORLD_DIR_NAME@ + coords.spec_to_str() + SAVE_EXTENSION@
}

/// The name of the file of the chunk at `coords`, below the directory of a
/// profile.
pub fn chunk_path(coords: Coords4D) -> (path: String)
    ensures
        path@ == spec_chunk_path(coords),
{
    let mut path = WORLD_DIR_NAME.to_owned();
    path.append(coords.to_str().as_str());
    path.append(SAVE_EXTENSION);
    path
}

/// The name of the file of the chunk at `coords` in the project directory
/// `project_dir`, which ends in a separator.
pub open spec fn spec_chunk_path_in_dir(project_dir: Seq<char>, coords: Coords4D) -> Seq<char> {
    project_dir + WORLD_DIR_NAME@ + coords.spec_to_str() + SAVE_EXTENSION@
}

/// The name of the file of the chunk at `coords` in the project directory
/// `project_dir`.
pub fn chunk_path_in_dir(project_dir: &str, coords: Coords4D) -> (path: String)
    ensures
        path@ == spec_chunk_path_in_dir(project_dir@, coords),
{
    let mut path = project_dir.to_owned();
    path.append(WORLD_DIR_NAME);
    path.append(coords.to_str().as_str());
    path.append(SAVE_EXTENSION);
    path
}

/// The name, below the world directory of a project, of the file that keeps
/// the id that the next entity gets.
pub fn world_file_name() -> (name: String)
    ensures
        name@ == WORLD_FILENAME@ + SAVE_EXTENSION@,
{
    let mut name = WORLD_FILENAME.to_owned();
    name.append(SAVE_EXTENSION);
    name
}

/// The name, below the world directory of a project, of the file of the
/// chunk at `coords`.
pub fn chunk_file_name(coords: Coords4D) -> (name: String)
    ensures
        name@ == coords.spec_to_str() + SAVE_EXTENSION@,
{
    let mut name = coords.to_str();
    name.append(SAVE_EXTENSION);
    name
}

/// The name of the file of the world that was saved as `savename`.
pub fn save_path(savename: &str) -> (path: String)
    ensures
        path@ == savename@ + SAVE_EXTENSION@,
{
    let mut path = savename.to_owned();
    path.append(SAVE_EXTENSION);
    path
}

/// The name of the file of the dialogue of the speaker with the id
/// `speaker_id`.
pub fn dialogue_path(speaker_id: u32) -> (path: String)
    ensures
        path@ == spec_decimal(speaker_id as int) + SAVE_EXTENSION@,
{
    let mut path = decimal(speaker_id as i64);
    path.append(SAVE_EXTENSION);
    path
}

} // verus!
