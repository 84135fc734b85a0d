//! What the windows ask of the world.

use vstd::prelude::*;
use crate::error::Error;
use crate::types::{Direction1D, Direction3D, Message};
use crate::ui::ui::Ui;
use crate::world::chunk::{spec_entity, spec_move};
use crate::world::world::{spec_pass_ticks, World};

verus! {

/// The id of the entity that the player steers.
pub const PLAYER_ID: u32 = 0;

/// What a window asks for when a key was pressed.
#[derive(Debug, PartialEq, Eq)]
pub enum UiCallbackPreset {
    Nothing,
    CloseUiPopup,
    SetSavename(String),
    MovePlayer(Direction3D),
    MoveCursor(Direction3D),
    MoveDialogueHighlight(Direction1D),
    SelectDialogueEntry(usize),
    InspectEntity(u32),
    TalkToEntity(u32),
    Wait(u32),
}

impl UiCallbackPreset {
    /// What answering the callback makes of the world and of the windows.
    pub open spec fn spec_called(
        self,
        world: World,
        ui: Ui,
        world_after: World,
        ui_after: Ui,
        result: Result<Option<Message>, Error>,
    ) -> bool {
        let done = Ok::<Option<Message>, Error>(None);
        match self {
            UiCallbackPreset::Nothing => world_after == world && ui_after == ui && result == done,
            UiCallbackPreset::CloseUiPopup => {
                &&& world_after == world
                &&& result == done
                &&& ui_after == (Ui { popup_messages: ui_after.popup_messages, ..ui })
                &&& ui_after.popup_messages@ == (if ui.popup_messages@.len() > 0 {
                    ui.popup_messages@.drop_first()
                } else {
                    ui.popup_messages@
                })
            },
            UiCallbackPreset::SetSavename(text) => {
                &&& ui_after == ui
                &&& result == done
                &&& world_after == (World { savename: world_after.savename, ..world })
                &&& world_after.savename is Some
                &&& world_after.savename->0@ == text@
            },
            UiCallbackPreset::MoveCursor(direction) => {
                &&& world_after == world
                &&& result == done
                &&& ui_after == ui.spec_cursor_moved(direction)
            },
            UiCallbackPreset::MoveDialogueHighlight(direction) => world_after == world && (
            match world.dialogue_tree {
                None => ui_after == ui && result == Err::<Option<Message>, Error>(
                    Error::NoActiveDialogue,
                ),
                Some(tree) => match tree.spec_active_node() {
                    None => ui_after == ui && result == Err::<Option<Message>, Error>(
                        Error::ActiveNodeNotFound,
                    ),
                    Some(i) => match tree.nodes@[i].spec_choices(world) {
                        Err(e) => ui_after == ui && result == Err::<Option<Message>, Error>(e),
                        Ok(open) => result == done && ui_after == ui.spec_highlight_moved(
                            direction,
                            open.len() as usize,
                        ),
                    },
                },
            }),
            UiCallbackPreset::SelectDialogueEntry(index) => ui_after == ui && (exists|
                made: Result<(), Error>,
            |
                {
                    &&& #[trigger] world.spec_choice_made(index, world_after, made)
                    &&& match made {
                        Ok(()) => result == done,
                        Err(e) => result == Err::<Option<Message>, Error>(e),
                    }
                }),
            UiCallbackPreset::MovePlayer(direction) => {
                &&& ui_after == ui
                &&& result == done
                &&& world_after == (World {
                    active_chunk: world_after.active_chunk,
                    pass_tick: true,
                    ..world
                })
                &&& world_after.active_chunk@ == spec_move(
                    world.active_chunk@,
                    PLAYER_ID,
                    direction,
                )
            },
            UiCallbackPreset::InspectEntity(id) => ui_after == ui && world_after == world && (
            match spec_entity(world.active_chunk@, id) {
                Some(e) => result matches Ok(Some(Message::Log(description))) && description@
                    == e.description@,
                None => result == Err::<Option<Message>, Error>(Error::EntityNotFound(id)),
            }),
            UiCallbackPreset::TalkToEntity(id) => {
                &&& ui_after == ui
                &&& result == done
                &&& world_after == (World { pass_tick: true, ..world })
            },
            UiCallbackPreset::Wait(ticks) => ui_after == ui && result == done && (if world.tick
                + ticks > u32::MAX {
                world_after == world
            } else {
                let outcome = spec_pass_ticks(
                    world.active_chunk@,
                    world.rng,
                    world.tick,
                    world.max_noise,
                    ticks as nat,
                );
                &&& world_after.active_chunk@ == outcome.entries
                &&& world_after == (World {
                    active_chunk: world_after.active_chunk,
                    rng: world_after.rng,
                    tick: world_after.tick,
                    messages: world_after.messages,
                    ..world
                })
                &&& world_after.messages@ == world.messages@
                &&& world_after.tick == (if outcome.error is Some {
                    world.tick
                } else {
                    (world.tick + ticks) as u32
                })
            }),
        }
    }

    /// Answers the callback: does to the world and to the windows what was
    /// asked for. Talking needs the speaker's dialogue, which is not in the
    /// world; the answer to `TalkToEntity` only notes that a tick is to
    /// pass, and the dialogue begins once it was fetched.
    pub fn call(&self, world: &mut World, ui: &mut Ui) -> (result: Result<Option<Message>, Error>)
        requires
            old(world).wf(),
        ensures
            final(world).wf(),
            self.spec_called(*old(world), *old(ui), *final(world), *final(ui), result),
    {
        match self {
            UiCallbackPreset::CloseUiPopup => {
                ui.close_popup();
                Ok(None)
            },
            UiCallbackPreset::SetSavename(text) => {
                world.savename = Some(text.clone());
                Ok(None)
            },
            UiCallbackPreset::Nothing => Ok(None),
            UiCallbackPreset::MoveCursor(direction) => {
                ui.move_cursor(direction);
                Ok(None)
            },
            UiCallbackPreset::MoveDialogueHighlight(direction) => {
                let max_choice: usize = match &world.dialogue_tree {
                    None => {
                        return Err(Error::NoActiveDialogue);
                    },
                    Some(tree) => match tree.get_active_node() {
                        Err(e) => {
                            return Err(e);
                        },
                        Ok(node) => match node.choices_text(world) {
                            Err(e) => {
                                return Err(e);
                            },
                            Ok(texts) => texts.len(),
                        },
                    },
                };
                ui.move_dialogue_highlight(direction, max_choice);
                Ok(None)
            },
            UiCallbackPreset::SelectDialogueEntry(index) => {
                let made = world.make_dialogue_choice(*index);
                assert(old(world).spec_choice_made(*index, *world, made));
                match made {
                    Ok(()) => Ok(None),
                    Err(e) => Err(e),
                }
            },
            UiCallbackPreset::MovePlayer(direction) => {
                world.pass_tick = true;
                let _ = world.active_chunk.move_entity(PLAYER_ID, direction);
                Ok(None)
            },
            UiCallbackPreset::InspectEntity(id) => {
                match world.active_chunk.inspect_entity(*id) {
                    Ok(message) => Ok(Some(Message::Log(message))),
                    Err(e) => Err(e),
                }
            },
            UiCallbackPreset::TalkToEntity(id) => {
                world.pass_tick = true;
                Ok(None)
            },
            UiCallbackPreset::Wait(ticks) => {
                if world.tick <= u32::MAX - *ticks {
                    let _ = world.pass_time(*ticks);
                }
                Ok(None)
            },
        }
    }
}

} // verus!
