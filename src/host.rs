//! What the emulator host asks of an input plugin, apart from the calling
//! convention: the version handshake and the replies to controller commands.
use vstd::prelude::*;
use crate::cache::{keys_word, InputCache};
use crate::report::InputState;

verus! {

/// This plugin's version, 0.1.0.
pub const PLUGIN_VERSION: i32 = 0x000100;

/// The host API version this plugin is written against, 2.1.0.
pub const TARGET_API_VERSION: i32 = 0x020100;

/// Mask of the major part of an API version.
pub const API_MAJOR_MASK: i32 = 0xfff0000;

/// Whether a host reporting API version `core_ver` can load this plugin: it
/// is at least the target version, with the same major part.
pub open spec fn api_compatible_spec(core_ver: i32) -> bool {
    core_ver >= TARGET_API_VERSION && core_ver & API_MAJOR_MASK == TARGET_API_VERSION
        & API_MAJOR_MASK
}

/// Checks the host's API version against the one this plugin targets.
pub fn api_compatible(core_ver: i32) -> (r: bool)
    ensures
        r == api_compatible_spec(core_ver),
{
    !(core_ver < TARGET_API_VERSION || core_ver & API_MAJOR_MASK != TARGET_API_VERSION
        & API_MAJOR_MASK)
}

/// A raw controller command, by its command byte.
#[derive(Clone, Copy, Debug, PartialEq, Eq, Structural)]
pub enum ReadCommand {
    GetStatus,
    ReadKeys,
    ResetController,
    ReadEepRom,
    WriteEepRom,
    Unrecognized,
}

/// The command that a command byte names.
pub open spec fn command_of(x: u8) -> ReadCommand {
    if x == 0x00 {
        ReadCommand::GetStatus
    } else if x == 0x01 {
        ReadCommand::ReadKeys
    } else if x == 0xff {
        ReadCommand::ResetController
    } else if x == 0x04 {
        ReadCommand::ReadEepRom
    } else if x == 0x05 {
        ReadCommand::WriteEepRom
    } else {
        ReadCommand::Unrecognized
    }
}

impl From<u8> for ReadCommand {
    fn from(x: u8) -> (r: ReadCommand) {
        match x {
            0x00 => ReadCommand::GetStatus,
            0x01 => ReadCommand::ReadKeys,
            0xff => ReadCommand::ResetController,
            0x04 => ReadCommand::ReadEepRom,
            0x05 => ReadCommand::WriteEepRom,
            _ => ReadCommand::Unrecognized,
        }
    }
}

impl vstd::std_specs::convert::FromSpecImpl<u8> for ReadCommand {
    open spec fn obeys_from_spec() -> bool {
        true
    }

    open spec fn from_spec(x: u8) -> ReadCommand {
        command_of(x)
    }
}

/// Status reply: a gamepad with absolute axes.
pub const STATUS_GAMEPAD_ABSOLUTE: u8 = 0x04 | 0x01;

/// Status reply: no EEPROM.
pub const STATUS_NO_EEPROM: u8 = 0x00;

/// Status reply: no controller pak.
pub const STATUS_NO_PAK: u8 = 0x02;

/// Error flag set in the second byte of an unrecognized command.
pub const COMMAND_ERROR: u8 = 0x80;

/// The byte at `i` (0 to 3) of `v` in little-endian order.
pub open spec fn le_byte(v: int, i: int) -> int {
    if i == 0 {
        v % 0x100
    } else if i == 1 {
        (v / 0x100) % 0x100
    } else if i == 2 {
        (v / 0x10000) % 0x100
    } else {
        (v / 0x1000000) % 0x100
    }
}

/// What a command buffer holds after `answer_command` answered it with the
/// BUTTONS word `keys`.
pub open spec fn answered(old_cmd: Seq<u8>, keys: int, new_cmd: Seq<u8>) -> bool {
    &&& new_cmd.len() == old_cmd.len()
    &&& match command_of(old_cmd[2]) {
        ReadCommand::GetStatus | ReadCommand::ResetController => new_cmd == old_cmd.update(
            3,
            STATUS_GAMEPAD_ABSOLUTE,
        ).update(4, STATUS_NO_EEPROM).update(5, STATUS_NO_PAK),
        ReadCommand::ReadKeys => {
            &&& forall|i: int| 3 <= i < 7 ==> #[trigger] new_cmd[i] as int == le_byte(keys, i - 3)
            &&& forall|i: int|
                0 <= i < new_cmd.len() && !(3 <= i < 7) ==> #[trigger] new_cmd[i] == old_cmd[i]
        },
        ReadCommand::Unrecognized => new_cmd == old_cmd.update(1, old_cmd[1] | COMMAND_ERROR),
        _ => new_cmd == old_cmd,
    }
}

/// Answers a controller command in place: the command byte sits at index 2,
/// the reply from index 3 on. `keys` is the BUTTONS word of the addressed
/// port, used by a key read.
pub fn answer_command(command: &mut Vec<u8>, keys: u32)
    requires
        old(command).len() >= 7,
    ensures
        answered(old(command)@, keys as int, final(command)@),
{
    let cmd = ReadCommand::from(command[2]);
    match cmd {
        ReadCommand::GetStatus | ReadCommand::ResetController => {
            command.set(3, STATUS_GAMEPAD_ABSOLUTE);
            command.set(4, STATUS_NO_EEPROM);
            command.set(5, STATUS_NO_PAK);
        },
        ReadCommand::ReadKeys => {
            command.set(3, (keys % 0x100) as u8);
            command.set(4, ((keys / 0x100) % 0x100) as u8);
            command.set(5, ((keys / 0x10000) % 0x100) as u8);
            command.set(6, ((keys / 0x1000000) % 0x100) as u8);
        },
        ReadCommand::ReadEepRom | ReadCommand::WriteEepRom => {},
        ReadCommand::Unrecognized => {
            let c1 = command[1];
            command.set(1, c1 | COMMAND_ERROR);
        },
    }
}

/// Answers a controller command for `control` from the current state of
/// `cache`. A control of -1 marks the end of a command list and is left alone.
pub fn read_controller(cache: &InputCache, control: i32, command: &mut Vec<u8>)
    requires
        old(command).len() >= 7,
    ensures
        control == -1 ==> final(command)@ == old(command)@,
        control != -1 ==> exists|s: InputState|
            s.wf() && answered(old(command)@, keys_word(s, control), final(command)@),
{
    if control == -1 {
        return;
    }
    let keys = cache.read_keys(control);
    answer_command(command, keys);
}

} // verus!
