//! Dialogue: a graph of nodes, walked by choosing.

use vstd::prelude::*;
use crate::error::Error;
use crate::text::TextStyle;
use crate::types::{Color, FormattedString};
use crate::ui::traits::same_text;
use crate::utils::{first_index, lemma_first_index_is, lemma_first_index_none};
use crate::world::chunk::spec_entity;
use crate::world::conditions::WorldCondition;
use crate::world::item::ItemType;
use crate::world::world::World;

verus! {

/// The styles of the texts of a dialogue.
#[derive(Debug, PartialEq, Eq, Structural, Clone, Copy)]
pub enum DialogueStyle {
    Default,
    Emphasis(Color),
}

impl TextStyle for DialogueStyle {
    open spec fn spec_plain() -> Self {
        DialogueStyle::Default
    }

    fn plain() -> (style: Self) {
        DialogueStyle::Default
    }
}

impl Default for DialogueStyle {
    fn default() -> (style: Self)
        ensures
            style == DialogueStyle::Default,
    {
        DialogueStyle::Default
    }
}

/// What must hold of the world for a choice to be open.
#[derive(Debug, PartialEq, Eq, Structural, Clone, Copy)]
pub enum DialoguePrecondition {
    InterlocutorHasItem(ItemType),
    InterlocutorHasSpecificItem(u32),
    WorldConditionIsActive(WorldCondition),
    WorldConditionIsInactive(WorldCondition),
}

/// What a choice does to the world.
#[derive(Debug, PartialEq, Eq, Structural, Clone, Copy)]
pub enum DialogueOutcome {
    GiveInterlocutorItem(ItemType),
    GiveInterlocutorSpecificItem(u32),
    TakeInterlocutorSpecificItem(u32),
    AddWorldCondition(WorldCondition),
    RemoveWorldCondition(WorldCondition),
}

/// Something to say: it is open where all its preconditions hold, it does
/// its outcomes to the world, and it leads to the node named `destination`.
#[derive(Debug, PartialEq, Eq)]
pub struct DialogueChoice {
    pub text: FormattedString<DialogueStyle>,
    pub preconditions: Vec<DialoguePrecondition>,
    pub outcomes: Vec<DialogueOutcome>,
    pub destination: String,
}

/// What the speaker says, and what can be said to it.
#[derive(Debug, PartialEq, Eq)]
pub struct DialogueNode {
    pub name: String,
    pub speaker_dialogue: FormattedString<DialogueStyle>,
    pub choices: Vec<DialogueChoice>,
}

/// A dialogue between a speaker and an interlocutor. The nodes refer to each
/// other by name, so they can form any graph; the active node is the one
/// with the name `active_node_name`.
#[derive(Debug, PartialEq, Eq)]
pub struct DialogueTree {
    pub nodes: Vec<DialogueNode>,
    pub active_node_name: String,
    pub speaker_name: String,
    pub speaker_id: u32,
    pub interlocutor_id: u32,
}

/// Holds of the nodes with the name `name`.
pub open spec fn node_is_named(name: Seq<char>) -> spec_fn(DialogueNode) -> bool {
    |node: DialogueNode| node.name@ == name
}

impl DialoguePrecondition {
    /// Whether the precondition holds of the world. That asks for a dialogue
    /// to be going on, and a precondition on the interlocutor's inventory
    /// asks for the interlocutor to be in the active chunk.
    pub open spec fn spec_is_met(self, world: World) -> Result<bool, Error> {
        match world.dialogue_tree {
            None => Err(Error::NoActiveDialogue),
            Some(tree) => match self {
                DialoguePrecondition::InterlocutorHasItem(item) => match spec_entity(
                    world.active_chunk@,
                    tree.interlocutor_id,
                ) {
                    Some(interlocutor) => Ok(interlocutor.spec_has_item(item)),
                    None => Err(Error::EntityNotFound(tree.interlocutor_id)),
                },
                DialoguePrecondition::InterlocutorHasSpecificItem(id) => match spec_entity(
                    world.active_chunk@,
                    tree.interlocutor_id,
                ) {
                    Some(interlocutor) => Ok(interlocutor.spec_has_specific_item(id)),
                    None => Err(Error::EntityNotFound(tree.interlocutor_id)),
                },
                DialoguePrecondition::WorldConditionIsActive(condition) => Ok(
                    world.spec_has_condition(condition),
                ),
                DialoguePrecondition::WorldConditionIsInactive(condition) => Ok(
                    !world.spec_has_condition(condition),
                ),
            },
        }
    }

    /// Whether the precondition holds of the world.
    pub fn is_met(&self, world: &World) -> (result: Result<bool, Error>)
        ensures
            result == self.spec_is_met(*world),
    {
        let interlocutor_id: u32 = match &world.dialogue_tree {
            Some(tree) => tree.interlocutor_id,
            None => {
                return Err(Error::NoActiveDialogue);
            },
        };
        match self {
            DialoguePrecondition::InterlocutorHasItem(item) => {
                match world.active_chunk.get_entity_from_id(interlocutor_id) {
                    Some(interlocutor) => Ok(interlocutor.has_item(*item)),
                    None => Err(Error::EntityNotFound(interlocutor_id)),
                }
            },
            DialoguePrecondition::InterlocutorHasSpecificItem(id) => {
                match world.active_chunk.get_entity_from_id(interlocutor_id) {
                    Some(interlocutor) => Ok(interlocutor.has_specific_item(*id)),
                    None => Err(Error::EntityNotFound(interlocutor_id)),
                }
            },
            DialoguePrecondition::WorldConditionIsActive(condition) => Ok(
                world.has_condition(*condition),
            ),
            DialoguePrecondition::WorldConditionIsInactive(condition) => Ok(
                !world.has_condition(*condition),
            ),
        }
    }
}

/// Whether the first `n` of the preconditions hold of the world, tested in
/// order: the first that fails to be tested gives its failure, and after
/// one that does not hold no other is tested.
pub open spec fn spec_all_met(
    preconditions: Seq<DialoguePrecondition>,
    world: World,
    n: int,
) -> Result<bool, Error>
    decreases n,
{
    if n <= 0 {
        Ok(true)
    } else {
        match spec_all_met(preconditions, world, n - 1) {
            Ok(true) => preconditions[n - 1].spec_is_met(world),
            other => other,
        }
    }
}

impl DialogueChoice {
    /// A choice.
    pub fn new(
        text: FormattedString<DialogueStyle>,
        preconditions: Vec<DialoguePrecondition>,
        outcomes: Vec<DialogueOutcome>,
        destination: &str,
    ) -> (choice: Self)
        ensures
            choice.text == text,
            choice.preconditions == preconditions,
            choice.outcomes == outcomes,
            choice.destination@ == destination@,
    {
        DialogueChoice { text, preconditions, outcomes, destination: destination.to_owned() }
    }

    /// Whether the choice is open: whether all its preconditions hold.
    pub open spec fn spec_preconditions_are_met(self, world: World) -> Result<bool, Error> {
        spec_all_met(self.preconditions@, world, self.preconditions@.len() as int)
    }

    /// Whether the choice is open: whether all its preconditions hold.
    pub fn preconditions_are_met(&self, world: &World) -> (result: Result<bool, Error>)
        ensures
            result == self.spec_preconditions_are_met(*world),
    {
        let mut k: usize = 0;
        while k < self.preconditions.len()
            invariant
                k <= self.preconditions.len(),
                spec_all_met(self.preconditions@, *world, k as int) == Ok::<bool, Error>(true),
            decreases self.preconditions.len() - k,
        {
            match self.preconditions[k].is_met(world) {
                Ok(true) => {},
                other => {
                    proof {
                        lemma_all_met_stops(
                            self.preconditions@,
                            *world,
                            k + 1,
                            self.preconditions@.len() as int,
                        );
                    }
                    return other;
                },
            }
            k += 1;
        }
        Ok(true)
    }
}

/// Once the preconditions up to `n` do not all hold, or fail to be tested,
/// testing more of them changes nothing.
pub proof fn lemma_all_met_stops(
    preconditions: Seq<DialoguePrecondition>,
    world: World,
    n: int,
    m: int,
)
    requires
        0 <= n <= m,
        spec_all_met(preconditions, world, n) != Ok::<bool, Error>(true),
    ensures
        spec_all_met(preconditions, world, m) == spec_all_met(preconditions, world, n),
    decreases m - n,
{
    if n < m {
        lemma_all_met_stops(preconditions, world, n, m - 1);
    }
}

/// Places as whole numbers.
pub open spec fn spec_places(places: Seq<usize>) -> Seq<int> {
    places.map_values(|place: usize| place as int)
}

/// The places among the first `n` choices of those that are open, in order;
/// a precondition that fails to be tested gives its failure.
pub open spec fn spec_open_choices(
    choices: Seq<DialogueChoice>,
    world: World,
    n: int,
) -> Result<Seq<int>, Error>
    decreases n,
{
    if n <= 0 {
        Ok(Seq::empty())
    } else {
        match spec_open_choices(choices, world, n - 1) {
            Err(e) => Err(e),
            Ok(open) => match choices[n - 1].spec_preconditions_are_met(world) {
                Err(e) => Err(e),
                Ok(true) => Ok(open.push(n - 1)),
                Ok(false) => Ok(open),
            },
        }
    }
}

/// Once finding the open choices has failed, it has failed.
pub proof fn lemma_open_choices_fail(choices: Seq<DialogueChoice>, world: World, n: int, m: int)
    requires
        0 <= n <= m,
        spec_open_choices(choices, world, n) is Err,
    ensures
        spec_open_choices(choices, world, m) == spec_open_choices(choices, world, n),
    decreases m - n,
{
    if n < m {
        lemma_open_choices_fail(choices, world, n, m - 1);
    }
}

impl DialogueNode {
    /// A node.
    pub fn new(
        name: &str,
        speaker_dialogue: FormattedString<DialogueStyle>,
        choices: Vec<DialogueChoice>,
    ) -> (node: Self)
        ensures
            node.name@ == name@,
            node.speaker_dialogue == speaker_dialogue,
            node.choices == choices,
    {
        DialogueNode { name: name.to_owned(), speaker_dialogue, choices }
    }

    /// The places of the choices that are open in the world.
    pub open spec fn spec_choices(self, world: World) -> Result<Seq<int>, Error> {
        spec_open_choices(self.choices@, world, self.choices@.len() as int)
    }

    /// The places of the choices that are open in the world.
    pub fn open_choices(&self, world: &World) -> (result: Result<Vec<usize>, Error>)
        ensures
            match self.spec_choices(*world) {
                Ok(open) => result matches Ok(places) && spec_places(places@) == open && forall|
                    k: int,
                |
                    0 <= k < places@.len() ==> (#[trigger] places@[k]) < self.choices@.len(),
                Err(e) => result == Err::<Vec<usize>, Error>(e),
            },
    {
        let mut places: Vec<usize> = Vec::new();
        let mut n: usize = 0;
        assert(spec_places(places@) =~= Seq::<int>::empty());
        while n < self.choices.len()
            invariant
                n <= self.choices.len(),
                spec_open_choices(self.choices@, *world, n as int) == Ok::<Seq<int>, Error>(
                    spec_places(places@),
                ),
                forall|k: int| 0 <= k < places@.len() ==> (#[trigger] places@[k]) < n,
            decreases self.choices.len() - n,
        {
            let met = self.choices[n].preconditions_are_met(world);
            match met {
                Err(e) => {
                    proof {
                        lemma_open_choices_fail(
                            self.choices@,
                            *world,
                            n + 1,
                            self.choices@.len() as int,
                        );
                    }
                    return Err(e);
                },
                Ok(is_open) => {
                    if is_open {
                        let ghost before = places@;
                        places.push(n);
                        assert(spec_places(places@) =~= spec_places(before).push(n as int));
                    }
                },
            }
            n += 1;
        }
        Ok(places)
    }

    /// The choices that are open in the world, in their order.
    pub fn choices(&self, world: &World) -> (result: Result<Vec<&DialogueChoice>, Error>)
        ensures
            match self.spec_choices(*world) {
                Ok(open) => result matches Ok(choices) && choices@.len() == open.len() && forall|
                    k: int,
                |
                    0 <= k < open.len() ==> *(#[trigger] choices@[k]) == self.choices@[open[k]],
                Err(e) => result == Err::<Vec<&DialogueChoice>, Error>(e),
            },
    {
        let places = match self.open_choices(world) {
            Ok(places) => places,
            Err(e) => {
                return Err(e);
            },
        };
        let mut choices: Vec<&DialogueChoice> = Vec::new();
        let mut k: usize = 0;
        while k < places.len()
            invariant
                k <= places.len(),
                forall|j: int|
                    0 <= j < places@.len() ==> (#[trigger] places@[j]) < self.choices@.len(),
                choices@.len() == k,
                forall|j: int|
                    0 <= j < k ==> *(#[trigger] choices@[j]) == self.choices@[places@[j] as int],
            decreases places.len() - k,
        {
            choices.push(&self.choices[places[k]]);
            k += 1;
        }
        Ok(choices)
    }

    /// All choices, open or not.
    pub fn choices_unconditional(&self) -> (choices: &Vec<DialogueChoice>)
        ensures
            choices == self.choices,
    {
        &self.choices
    }

    /// How many choices there are, open or not.
    pub fn choices_count_unconditional(&self) -> (count: usize)
        ensures
            count == self.choices@.len(),
    {
        self.choices.len()
    }

    /// The texts of the choices that are open in the world.
    pub fn choices_text(&self, world: &World) -> (result: Result<
        Vec<FormattedString<DialogueStyle>>,
        Error,
    >)
        ensures
            match self.spec_choices(*world) {
                Ok(open) => result matches Ok(texts) && texts@.len() == open.len() && forall|
                    k: int,
                |
                    0 <= k < open.len() ==> (#[trigger] texts@[k])@ == self.choices@[open[k]].text@,
                Err(e) => result == Err::<Vec<FormattedString<DialogueStyle>>, Error>(e),
            },
    {
        let places = match self.open_choices(world) {
            Ok(places) => places,
            Err(e) => {
                return Err(e);
            },
        };
        let mut texts: Vec<FormattedString<DialogueStyle>> = Vec::new();
        let mut k: usize = 0;
        while k < places.len()
            invariant
                k <= places.len(),
                forall|j: int|
                    0 <= j < places@.len() ==> (#[trigger] places@[j]) < self.choices@.len(),
                texts@.len() == k,
                forall|j: int|
                    0 <= j < k ==> (#[trigger] texts@[j])@ == self.choices@[places@[j] as int].text@,
            decreases places.len() - k,
        {
            texts.push(self.choices[places[k]].text.clone());
            k += 1;
        }
        Ok(texts)
    }

    /// The texts of all choices, open or not.
    pub fn choices_text_unconditional(&self) -> (result: Result<
        Vec<FormattedString<DialogueStyle>>,
        Error,
    >)
        ensures
            result matches Ok(texts) && texts@.len() == self.choices@.len() && forall|k: int|
                0 <= k < texts@.len() ==> (#[trigger] texts@[k])@ == self.choices@[k].text@,
    {
        let mut texts: Vec<FormattedString<DialogueStyle>> = Vec::new();
        let mut k: usize = 0;
        while k < self.choices.len()
            invariant
                k <= self.choices.len(),
                texts@.len() == k,
                forall|j: int| 0 <= j < k ==> (#[trigger] texts@[j])@ == self.choices@[j].text@,
            decreases self.choices.len() - k,
        {
            texts.push(self.choices[k].text.clone());
            k += 1;
        }
        Ok(texts)
    }

    /// What the speaker says at this node.
    pub fn speaker_dialogue(&self) -> (text: &FormattedString<DialogueStyle>)
        ensures
            *text == self.speaker_dialogue,
    {
        &self.speaker_dialogue
    }

    /// What choosing the `index`-th of the open choices does and where it
    /// leads. The index counts the choices that are open, not all.
    pub open spec fn spec_chosen(self, index: usize, world: World) -> Result<
        (Seq<DialogueOutcome>, Seq<char>),
        Error,
    > {
        match self.spec_choices(world) {
            Err(e) => Err(e),
            Ok(open) => if index >= open.len() {
                Err(Error::ChoiceOutOfRange(index))
            } else {
                Ok(
                    (
                        self.choices@[open[index as int]].outcomes@,
                        self.choices@[open[index as int]].destination@,
                    ),
                )
            },
        }
    }

    /// What choosing the `index`-th of the open choices does and where it
    /// leads. The index counts the choices that are open, not all.
    pub fn get_outcomes_and_destination_from_choice(&self, index: usize, world: &World) -> (result:
        Result<(Vec<DialogueOutcome>, String), Error>)
        ensures
            match self.spec_chosen(index, *world) {
                Ok(chosen) => result matches Ok(found) && found.0@ == chosen.0 && found.1@
                    == chosen.1,
                Err(e) => result == Err::<(Vec<DialogueOutcome>, String), Error>(e),
            },
    {
        let places = match self.open_choices(world) {
            Ok(places) => places,
            Err(e) => {
                return Err(e);
            },
        };
        if index >= places.len() {
            return Err(Error::ChoiceOutOfRange(index));
        }
        let choice = &self.choices[places[index]];
        Ok((choice.outcomes.clone(), choice.destination.clone()))
    }
}

impl DialogueTree {
    /// A tree without nodes, about to begin at the node `start`.
    pub fn new(speaker_name: &str) -> (tree: DialogueTree)
        ensures
            tree.nodes@ == Seq::<DialogueNode>::empty(),
            tree.active_node_name@ == "start"@,
            tree.speaker_name@ == speaker_name@,
            tree.speaker_id == 0,
            tree.interlocutor_id == 0,
    {
        DialogueTree {
            nodes: Vec::new(),
            active_node_name: "start".to_owned(),
            speaker_name: speaker_name.to_owned(),
            speaker_id: 0,
            interlocutor_id: 0,
        }
    }

    /// What is kept of a tree: the speaker's name and the nodes. Who is
    /// talking, and where the dialogue has got to, is not kept.
    pub open spec fn spec_save(self) -> (String, Vec<DialogueNode>) {
        (self.speaker_name, self.nodes)
    }

    /// What is kept of a tree: the speaker's name and the nodes.
    pub fn save(&self) -> (kept: (&String, &Vec<DialogueNode>))
        ensures
            (*kept.0, *kept.1) == self.spec_save(),
    {
        (&self.speaker_name, &self.nodes)
    }

    /// Whether `tree` is the tree that is made of what was kept, for a
    /// dialogue between these two that begins at the node `start`.
    pub open spec fn spec_from_entity_name(
        speaker_id: u32,
        interlocutor_id: u32,
        kept: (String, Vec<DialogueNode>),
        tree: DialogueTree,
    ) -> bool {
        &&& tree.speaker_name == kept.0
        &&& tree.nodes == kept.1
        &&& tree.active_node_name@ == "start"@
        &&& tree.speaker_id == speaker_id
        &&& tree.interlocutor_id == interlocutor_id
    }

    /// The tree of the speaker with the id `speaker_id`, made of what was
    /// kept of it, for a dialogue with `interlocutor_id` that begins at the
    /// node `start`.
    pub fn from_entity_name(
        speaker_id: u32,
        interlocutor_id: u32,
        speaker_name: String,
        nodes: Vec<DialogueNode>,
    ) -> (result: Result<Self, Error>)
        ensures
            result matches Ok(tree) && Self::spec_from_entity_name(
                speaker_id,
                interlocutor_id,
                (speaker_name, nodes),
                tree,
            ),
    {
        Ok(
            DialogueTree {
                speaker_name,
                nodes,
                active_node_name: "start".to_owned(),
                speaker_id,
                interlocutor_id,
            },
        )
    }

    /// The place of the active node: of the first node with the name of the
    /// active node.
    pub open spec fn spec_active_node(self) -> Option<int> {
        first_index(self.nodes@, node_is_named(self.active_node_name@))
    }

    /// The active node.
    pub fn get_active_node(&self) -> (result: Result<&DialogueNode, Error>)
        ensures
            match self.spec_active_node() {
                Some(i) => result == Ok::<&DialogueNode, Error>(&self.nodes@[i]),
                None => result == Err::<&DialogueNode, Error>(Error::ActiveNodeNotFound),
            },
    {
        let mut k: usize = 0;
        while k < self.nodes.len()
            invariant
                k <= self.nodes.len(),
                forall|j: int|
                    0 <= j < k ==> !node_is_named(self.active_node_name@)(#[trigger] self.nodes@[j]),
            decreases self.nodes.len() - k,
        {
            if same_text(self.nodes[k].name.as_str(), self.active_node_name.as_str()) {
                proof {
                    lemma_first_index_is(
                        self.nodes@,
                        node_is_named(self.active_node_name@),
                        k as int,
                    );
                }
                return Ok(&self.nodes[k]);
            }
            k += 1;
        }
        proof {
            lemma_first_index_none(self.nodes@, node_is_named(self.active_node_name@));
        }
        Err(Error::ActiveNodeNotFound)
    }

    /// What choosing the `choice`-th open choice of the active node does
    /// and where it leads.
    pub open spec fn spec_chosen(self, choice: usize, world: World) -> Result<
        (Seq<DialogueOutcome>, Seq<char>),
        Error,
    > {
        match self.spec_active_node() {
            None => Err(Error::ActiveNodeNotFound),
            Some(i) => self.nodes@[i].spec_chosen(choice, world),
        }
    }

    /// What choosing the `choice`-th open choice of the active node does
    /// and where it leads.
    pub fn get_outcomes_and_destination_from_choice(&self, choice: usize, world: &World) -> (result:
        Result<(Vec<DialogueOutcome>, String), Error>)
        ensures
            match self.spec_chosen(choice, *world) {
                Ok(chosen) => result matches Ok(found) && found.0@ == chosen.0 && found.1@
                    == chosen.1,
                Err(e) => result == Err::<(Vec<DialogueOutcome>, String), Error>(e),
            },
    {
        match self.get_active_node() {
            Ok(node) => node.get_outcomes_and_destination_from_choice(choice, world),
            Err(e) => Err(e),
        }
    }

    /// Makes the node named `destination` the active node, whether there is
    /// such a node or not.
    pub fn make_choice(&mut self, destination: &str)
        ensures
            final(self).active_node_name@ == destination@,
            *final(self) == (DialogueTree {
                active_node_name: final(self).active_node_name,
                ..*old(self)
            }),
    {
        self.active_node_name = destination.to_owned();
    }
}

/// A tree that is made again of what was kept of it is the tree it was,
/// but that it begins at the node `start` again.
pub proof fn lemma_kept_tree_is_rebuilt(tree: DialogueTree, rebuilt: DialogueTree)
    requires
        DialogueTree::spec_from_entity_name(
            tree.speaker_id,
            tree.interlocutor_id,
            tree.spec_save(),
            rebuilt,
        ),
    ensures
        rebuilt == (DialogueTree { active_node_name: rebuilt.active_node_name, ..tree }),
        rebuilt.active_node_name@ == "start"@,
        rebuilt.spec_save() == tree.spec_save(),
        tree.active_node_name@ == "start"@ ==> rebuilt.spec_active_node()
            == tree.spec_active_node(),
{
}

/// All of the first `n` preconditions hold exactly where each of them
/// holds.
pub proof fn lemma_all_met(preconditions: Seq<DialoguePrecondition>, world: World, n: int)
    requires
        0 <= n <= preconditions.len(),
    ensures
        spec_all_met(preconditions, world, n) == Ok::<bool, Error>(true) <==> forall|k: int|
            0 <= k < n ==> (#[trigger] preconditions[k]).spec_is_met(world) == Ok::<bool, Error>(
                true,
            ),
    decreases n,
{
    if n > 0 {
        lemma_all_met(preconditions, world, n - 1);
        if spec_all_met(preconditions, world, n) == Ok::<bool, Error>(true) {
            assert forall|k: int| 0 <= k < n implies (#[trigger] preconditions[k]).spec_is_met(
                world,
            ) == Ok::<bool, Error>(true) by {}
        }
    }
}

/// A choice that asks for a flag is not open while the flag is not set.
pub proof fn lemma_unset_condition_closes_choice(
    choice: DialogueChoice,
    world: World,
    condition: WorldCondition,
    k: int,
)
    requires
        0 <= k < choice.preconditions@.len(),
        choice.preconditions@[k] == DialoguePrecondition::WorldConditionIsActive(condition),
        !world.spec_has_condition(condition),
    ensures
        choice.spec_preconditions_are_met(world) != Ok::<bool, Error>(true),
{
    lemma_all_met(choice.preconditions@, world, choice.preconditions@.len() as int);
    assert(choice.preconditions@[k].spec_is_met(world) != Ok::<bool, Error>(true));
}

/// Once the flag is set, the choice is open, unless another of its
/// preconditions does not hold.
pub proof fn lemma_set_condition_opens_choice(
    choice: DialogueChoice,
    world: World,
    condition: WorldCondition,
)
    requires
        world.dialogue_tree is Some,
        world.spec_has_condition(condition),
        forall|k: int|
            0 <= k < choice.preconditions@.len() && choice.preconditions@[k]
                != DialoguePrecondition::WorldConditionIsActive(condition) ==> (
            #[trigger] choice.preconditions@[k]).spec_is_met(world) == Ok::<bool, Error>(true),
    ensures
        choice.spec_preconditions_are_met(world) == Ok::<bool, Error>(true),
{
    lemma_all_met(choice.preconditions@, world, choice.preconditions@.len() as int);
    assert forall|k: int| 0 <= k < choice.preconditions@.len() implies (
    #[trigger] choice.preconditions@[k]).spec_is_met(world) == Ok::<bool, Error>(true) by {}
}

/// Where the open choices can be found, they are the choices whose
/// preconditions all hold, in their order and each once.
pub proof fn lemma_open_choices(choices: Seq<DialogueChoice>, world: World, n: int)
    requires
        0 <= n <= choices.len(),
        spec_open_choices(choices, world, n) is Ok,
    ensures
        ({
            let open = spec_open_choices(choices, world, n)->Ok_0;
            &&& forall|k: int|
                0 <= k < n ==> (open.contains(k) <==> (#[trigger] choices[k]).spec_preconditions_are_met(
                    world,
                ) == Ok::<bool, Error>(true))
            &&& forall|j: int| 0 <= j < open.len() ==> 0 <= #[trigger] open[j] < n
            &&& forall|i: int, j: int| 0 <= i < j < open.len() ==> open[i] < open[j]
        }),
    decreases n,
{
    if n > 0 {
        lemma_open_choices(choices, world, n - 1);
        let before = spec_open_choices(choices, world, n - 1)->Ok_0;
        let open = spec_open_choices(choices, world, n)->Ok_0;
        assert forall|k: int| 0 <= k < n implies (open.contains(k) <==> (
        #[trigger] choices[k]).spec_preconditions_are_met(world) == Ok::<bool, Error>(true)) by {
            if open.len() > before.len() {
                assert(open[before.len() as int] == n - 1);
                if k < n - 1 && before.contains(k) {
                    let j = choose|j: int| 0 <= j < before.len() && before[j] == k;
                    assert(open[j] == k);
                }
                if open.contains(k) && k < n - 1 {
                    let j = choose|j: int| 0 <= j < open.len() && open[j] == k;
                    assert(before[j] == k);
                }
            } else {
                if k == n - 1 && open.contains(k) {
                    let j = choose|j: int| 0 <= j < open.len() && open[j] == k;
                    assert(0 <= before[j] < n - 1);
                }
            }
        }
    }
}

} // verus!
