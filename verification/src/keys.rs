//! What the user keys of the keymap mean to the pointing settings.

use vstd::prelude::*;

verus! {

/// One thing that a user key can ask for.
#[derive(Clone, Copy, Debug, PartialEq, Eq)]
pub enum UserCommand {
    CpiUp,
    CpiDown,
    CursorToggle,
    /// Drop to the lowest CPI step for as long as the key is held.
    SnipePress,
    SnipeRelease,
    ScrollSpeedUp,
    ScrollSpeedDown,
    ScrollInvertX,
    ScrollInvertY,
    SaveSlot { slot: u8 },
    LoadSlot { slot: u8 },
}

/// The ids under which the keymap reports each user key.
#[derive(Clone, Copy, Debug, PartialEq, Eq)]
pub struct UserKeyIds {
    pub cpi_up: u8,
    pub cpi_down: u8,
    pub cursor_toggle: u8,
    pub snipe: u8,
    pub scroll_speed_up: u8,
    pub scroll_speed_down: u8,
    pub scroll_invert_x: u8,
    pub scroll_invert_y: u8,
    pub save_slot_1: u8,
    pub load_slot_1: u8,
    pub save_slot_2: u8,
    pub load_slot_2: u8,
}

/// That a key event asks for a command.
pub struct Binding {
    pub id: u8,
    pub pressed: bool,
    pub command: UserCommand,
}

impl Binding {
    /// The key event `(id, pressed)` is the one that the binding is for.
    pub open spec fn matches(self, id: u8, pressed: bool) -> bool {
        self.id == id && self.pressed == pressed
    }
}

impl UserKeyIds {
    /// Every binding, the one that takes precedence first. All keys act when
    /// they are pressed; the snipe key also acts when it is released.
    pub open spec fn bindings(self) -> Seq<Binding> {
        seq![
            Binding { id: self.cpi_up, pressed: true, command: UserCommand::CpiUp },
            Binding { id: self.cpi_down, pressed: true, command: UserCommand::CpiDown },
            Binding { id: self.cursor_toggle, pressed: true, command: UserCommand::CursorToggle },
            Binding { id: self.snipe, pressed: true, command: UserCommand::SnipePress },
            Binding { id: self.snipe, pressed: false, command: UserCommand::SnipeRelease },
            Binding { id: self.scroll_speed_up, pressed: true, command: UserCommand::ScrollSpeedUp },
            Binding {
                id: self.scroll_speed_down,
                pressed: true,
                command: UserCommand::ScrollSpeedDown,
            },
            Binding { id: self.scroll_invert_x, pressed: true, command: UserCommand::ScrollInvertX },
            Binding { id: self.scroll_invert_y, pressed: true, command: UserCommand::ScrollInvertY },
            Binding { id: self.save_slot_1, pressed: true, command: UserCommand::SaveSlot { slot: 1 } },
            Binding { id: self.load_slot_1, pressed: true, command: UserCommand::LoadSlot { slot: 1 } },
            Binding { id: self.save_slot_2, pressed: true, command: UserCommand::SaveSlot { slot: 2 } },
            Binding { id: self.load_slot_2, pressed: true, command: UserCommand::LoadSlot { slot: 2 } },
        ]
    }

    /// What the key event `(id, pressed)` asks for.
    pub open spec fn meaning(self, id: u8, pressed: bool) -> Option<UserCommand> {
        if !pressed {
            if id == self.snipe { Some(UserCommand::SnipeRelease) } else { None }
        } else if id == self.cpi_up {
            Some(UserCommand::CpiUp)
        } else if id == self.cpi_down {
            Some(UserCommand::CpiDown)
        } else if id == self.cursor_toggle {
            Some(UserCommand::CursorToggle)
        } else if id == self.snipe {
            Some(UserCommand::SnipePress)
        } else if id == self.scroll_speed_up {
            Some(UserCommand::ScrollSpeedUp)
        } else if id == self.scroll_speed_down {
            Some(UserCommand::ScrollSpeedDown)
        } else if id == self.scroll_invert_x {
            Some(UserCommand::ScrollInvertX)
        } else if id == self.scroll_invert_y {
            Some(UserCommand::ScrollInvertY)
        } else if id == self.save_slot_1 {
            Some(UserCommand::SaveSlot { slot: 1 })
        } else if id == self.load_slot_1 {
            Some(UserCommand::LoadSlot { slot: 1 })
        } else if id == self.save_slot_2 {
            Some(UserCommand::SaveSlot { slot: 2 })
        } else if id == self.load_slot_2 {
            Some(UserCommand::LoadSlot { slot: 2 })
        } else {
            None
        }
    }

    /// No two keys share an id.
    pub open spec fn distinct(self) -> bool {
        forall|i: int, j: int|
            0 <= i < j < self.bindings().len() && (#[trigger] self.bindings()[i]).pressed
                == (#[trigger] self.bindings()[j]).pressed ==> self.bindings()[i].id
                != self.bindings()[j].id
    }

    /// What the key event `(id, pressed)` asks for; `None` where it asks for
    /// nothing.
    pub fn command(&self, id: u8, pressed: bool) -> (command: Option<UserCommand>)
        ensures
            command == self.meaning(id, pressed),
    {
        if !pressed {
            return if id == self.snipe {
                Some(UserCommand::SnipeRelease)
            } else {
                None
            };
        }
        if id == self.cpi_up {
            Some(UserCommand::CpiUp)
        } else if id == self.cpi_down {
            Some(UserCommand::CpiDown)
        } else if id == self.cursor_toggle {
            Some(UserCommand::CursorToggle)
        } else if id == self.snipe {
            Some(UserCommand::SnipePress)
        } else if id == self.scroll_speed_up {
            Some(UserCommand::ScrollSpeedUp)
        } else if id == self.scroll_speed_down {
            Some(UserCommand::ScrollSpeedDown)
        } else if id == self.scroll_invert_x {
            Some(UserCommand::ScrollInvertX)
        } else if id == self.scroll_invert_y {
            Some(UserCommand::ScrollInvertY)
        } else if id == self.save_slot_1 {
            Some(UserCommand::SaveSlot { slot: 1 })
        } else if id == self.load_slot_1 {
            Some(UserCommand::LoadSlot { slot: 1 })
        } else if id == self.save_slot_2 {
            Some(UserCommand::SaveSlot { slot: 2 })
        } else if id == self.load_slot_2 {
            Some(UserCommand::LoadSlot { slot: 2 })
        } else {
            None
        }
    }
}

/// A key event asks for what the first binding that it matches says.
pub proof fn law_first_binding_wins(keys: UserKeyIds, id: u8, pressed: bool, i: int)
    requires
        0 <= i < keys.bindings().len(),
        keys.bindings()[i].matches(id, pressed),
        forall|j: int| 0 <= j < i ==> !(#[trigger] keys.bindings()[j]).matches(id, pressed),
    ensures
        keys.meaning(id, pressed) == Some(keys.bindings()[i].command),
{
    lemma_bindings_tried(keys, id, pressed, i);
}

/// A key event that matches no binding asks for nothing.
pub proof fn law_unbound_keys_ask_nothing(keys: UserKeyIds, id: u8, pressed: bool)
    requires
        forall|j: int|
            0 <= j < keys.bindings().len() ==> !(#[trigger] keys.bindings()[j]).matches(
                id,
                pressed,
            ),
    ensures
        keys.meaning(id, pressed) is None,
{
    lemma_bindings_tried(keys, id, pressed, keys.bindings().len() as int);
}

/// Where no two keys share an id, every binding is in effect.
pub proof fn law_distinct_keys_keep_their_commands(keys: UserKeyIds, i: int)
    requires
        keys.distinct(),
        0 <= i < keys.bindings().len(),
    ensures
        keys.meaning(keys.bindings()[i].id, keys.bindings()[i].pressed) == Some(
            keys.bindings()[i].command,
        ),
{
    let b = keys.bindings()[i];
    law_first_binding_wins(keys, b.id, b.pressed, i);
}

/// Pressing a key gives the command that its own id stands for, unless a key
/// that comes before it has the same id. Of a keymap whose twelve ids differ,
/// every key gives its own command.
pub proof fn law_each_key_gives_its_own_command(keys: UserKeyIds)
    ensures
        keys.meaning(keys.cpi_up, true) == Some(UserCommand::CpiUp),
        keys.cpi_down != keys.cpi_up ==> keys.meaning(keys.cpi_down, true) == Some(UserCommand::CpiDown),
        keys.cursor_toggle != keys.cpi_up && keys.cursor_toggle != keys.cpi_down
            ==> keys.meaning(keys.cursor_toggle, true) == Some(UserCommand::CursorToggle),
        keys.snipe != keys.cpi_up && keys.snipe != keys.cpi_down
            && keys.snipe != keys.cursor_toggle
            ==> keys.meaning(keys.snipe, true) == Some(UserCommand::SnipePress),
        keys.scroll_speed_up != keys.cpi_up && keys.scroll_speed_up != keys.cpi_down
            && keys.scroll_speed_up != keys.cursor_toggle && keys.scroll_speed_up != keys.snipe
            ==> keys.meaning(keys.scroll_speed_up, true) == Some(UserCommand::ScrollSpeedUp),
        keys.scroll_speed_down != keys.cpi_up && keys.scroll_speed_down != keys.cpi_down
            && keys.scroll_speed_down != keys.cursor_toggle
            && keys.scroll_speed_down != keys.snipe
            && keys.scroll_speed_down != keys.scroll_speed_up
            ==> keys.meaning(keys.scroll_speed_down, true) == Some(UserCommand::ScrollSpeedDown),
        keys.scroll_invert_x != keys.cpi_up && keys.scroll_invert_x != keys.cpi_down
            && keys.scroll_invert_x != keys.cursor_toggle && keys.scroll_invert_x != keys.snipe
            && keys.scroll_invert_x != keys.scroll_speed_up
            && keys.scroll_invert_x != keys.scroll_speed_down
            ==> keys.meaning(keys.scroll_invert_x, true) == Some(UserCommand::ScrollInvertX),
        keys.scroll_invert_y != keys.cpi_up && keys.scroll_invert_y != keys.cpi_down
            && keys.scroll_invert_y != keys.cursor_toggle && keys.scroll_invert_y != keys.snipe
            && keys.scroll_invert_y != keys.scroll_speed_up
            && keys.scroll_invert_y != keys.scroll_speed_down
            && keys.scroll_invert_y != keys.scroll_invert_x
            ==> keys.meaning(keys.scroll_invert_y, true) == Some(UserCommand::ScrollInvertY),
        keys.save_slot_1 != keys.cpi_up && keys.save_slot_1 != keys.cpi_down
            && keys.save_slot_1 != keys.cursor_toggle && keys.save_slot_1 != keys.snipe
            && keys.save_slot_1 != keys.scroll_speed_up
            && keys.save_slot_1 != keys.scroll_speed_down
            && keys.save_slot_1 != keys.scroll_invert_x
            && keys.save_slot_1 != keys.scroll_invert_y
            ==> keys.meaning(keys.save_slot_1, true) == Some(UserCommand::SaveSlot { slot: 1 }),
        keys.load_slot_1 != keys.cpi_up && keys.load_slot_1 != keys.cpi_down
            && keys.load_slot_1 != keys.cursor_toggle && keys.load_slot_1 != keys.snipe
            && keys.load_slot_1 != keys.scroll_speed_up
            && keys.load_slot_1 != keys.scroll_speed_down
            && keys.load_slot_1 != keys.scroll_invert_x
            && keys.load_slot_1 != keys.scroll_invert_y && keys.load_slot_1 != keys.save_slot_1
            ==> keys.meaning(keys.load_slot_1, true) == Some(UserCommand::LoadSlot { slot: 1 }),
        keys.save_slot_2 != keys.cpi_up && keys.save_slot_2 != keys.cpi_down
            && keys.save_slot_2 != keys.cursor_toggle && keys.save_slot_2 != keys.snipe
            && keys.save_slot_2 != keys.scroll_speed_up
            && keys.save_slot_2 != keys.scroll_speed_down
            && keys.save_slot_2 != keys.scroll_invert_x
            && keys.save_slot_2 != keys.scroll_invert_y && keys.save_slot_2 != keys.save_slot_1
            && keys.save_slot_2 != keys.load_slot_1
            ==> keys.meaning(keys.save_slot_2, true) == Some(UserCommand::SaveSlot { slot: 2 }),
        keys.load_slot_2 != keys.cpi_up && keys.load_slot_2 != keys.cpi_down
            && keys.load_slot_2 != keys.cursor_toggle && keys.load_slot_2 != keys.snipe
            && keys.load_slot_2 != keys.scroll_speed_up
            && keys.load_slot_2 != keys.scroll_speed_down
            && keys.load_slot_2 != keys.scroll_invert_x
            && keys.load_slot_2 != keys.scroll_invert_y && keys.load_slot_2 != keys.save_slot_1
            && keys.load_slot_2 != keys.load_slot_1 && keys.load_slot_2 != keys.save_slot_2
            ==> keys.meaning(keys.load_slot_2, true) == Some(UserCommand::LoadSlot { slot: 2 }),
{
}

/// The press of an id that no key has asks for nothing; that of an id that some
/// key has asks for something.
pub proof fn law_ids_without_a_key_ask_nothing(keys: UserKeyIds, id: u8)
    ensures
        keys.meaning(id, true) is None <==> id != keys.cpi_up && id != keys.cpi_down
            && id != keys.cursor_toggle && id != keys.snipe && id != keys.scroll_speed_up
            && id != keys.scroll_speed_down && id != keys.scroll_invert_x
            && id != keys.scroll_invert_y && id != keys.save_slot_1 && id != keys.load_slot_1
            && id != keys.save_slot_2 && id != keys.load_slot_2,
{
}

/// The release of a key asks for something only if it is the snipe key.
pub proof fn law_only_snipe_acts_on_release(keys: UserKeyIds, id: u8)
    ensures
        keys.meaning(id, false) is Some <==> id == keys.snipe,
        keys.meaning(keys.snipe, false) == Some(UserCommand::SnipeRelease),
{
}

/// A key event asks for what binding `i` says, or for nothing where `i` is past
/// the last one, if it matches no earlier binding.
proof fn lemma_bindings_tried(keys: UserKeyIds, id: u8, pressed: bool, i: int)
    requires
        0 <= i <= keys.bindings().len(),
        i < keys.bindings().len() ==> keys.bindings()[i].matches(id, pressed),
        forall|j: int| 0 <= j < i ==> !(#[trigger] keys.bindings()[j]).matches(id, pressed),
    ensures
        keys.meaning(id, pressed) == if i < keys.bindings().len() {
            Some(keys.bindings()[i].command)
        } else {
            None
        },
{
    let b = keys.bindings();
    assert(i > 0 ==> !b[0].matches(id, pressed));
    assert(i > 1 ==> !b[1].matches(id, pressed));
    assert(i > 2 ==> !b[2].matches(id, pressed));
    assert(i > 3 ==> !b[3].matches(id, pressed));
    assert(i > 4 ==> !b[4].matches(id, pressed));
    assert(i > 5 ==> !b[5].matches(id, pressed));
    assert(i > 6 ==> !b[6].matches(id, pressed));
    assert(i > 7 ==> !b[7].matches(id, pressed));
    assert(i > 8 ==> !b[8].matches(id, pressed));
    assert(i > 9 ==> !b[9].matches(id, pressed));
    assert(i > 10 ==> !b[10].matches(id, pressed));
    assert(i > 11 ==> !b[11].matches(id, pressed));
    assert(i > 12 ==> !b[12].matches(id, pressed));
}

} // verus!
