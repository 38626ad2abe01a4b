//! Tray contracts shared by every host: the stable menu ids and the
//! generated 32×32 speaker icon.

use vstd::prelude::*;
use crate::text::str_equals;
use crate::ui::canvas::{decimal, decimal_text};

verus! {

/// Commands the app can receive from the tray menu.
#[derive(Debug, Clone, Copy, PartialEq, Eq, Structural)]
pub enum TrayCommand {
    ToggleMute,
    Reset50,
    OpenMixer,
    Help,
    Settings,
    EditConfig,
    ReloadConfig,
    Exit,
}

/// The command behind a stable menu id.
pub open spec fn command_for_id(id: Seq<char>) -> Option<TrayCommand> {
    if id == "mute"@ {
        Some(TrayCommand::ToggleMute)
    } else if id == "reset"@ {
        Some(TrayCommand::Reset50)
    } else if id == "mixer"@ {
        Some(TrayCommand::OpenMixer)
    } else if id == "help"@ {
        Some(TrayCommand::Help)
    } else if id == "settings"@ {
        Some(TrayCommand::Settings)
    } else if id == "edit"@ {
        Some(TrayCommand::EditConfig)
    } else if id == "reload"@ {
        Some(TrayCommand::ReloadConfig)
    } else if id == "exit"@ {
        Some(TrayCommand::Exit)
    } else {
        None
    }
}

impl TrayCommand {
    /// Decode the stable ids of the tray menu items.
    pub fn from_menu_id(id: &str) -> (r: Option<Self>)
        ensures
            r == command_for_id(id@),
    {
        if str_equals(id, "mute") {
            Some(TrayCommand::ToggleMute)
        } else if str_equals(id, "reset") {
            Some(TrayCommand::Reset50)
        } else if str_equals(id, "mixer") {
            Some(TrayCommand::OpenMixer)
        } else if str_equals(id, "help") {
            Some(TrayCommand::Help)
        } else if str_equals(id, "settings") {
            Some(TrayCommand::Settings)
        } else if str_equals(id, "edit") {
            Some(TrayCommand::EditConfig)
        } else if str_equals(id, "reload") {
            Some(TrayCommand::ReloadConfig)
        } else if str_equals(id, "exit") {
            Some(TrayCommand::Exit)
        } else {
            None
        }
    }
}

/// Icon side length in pixels.
pub const ICON_SIZE: usize = 32;

/// Pixel `(x, y)` lies in the speaker body.
pub open spec fn in_body(x: int, y: int) -> bool {
    6 <= x < 14 && 10 <= y < 22
}

/// Pixel `(x, y)` lies in the cone widening right from the body.
pub open spec fn in_cone(x: int, y: int) -> bool {
    14 <= x < 24 && y >= 10 + (x - 14) && y <= 21 - (x - 14)
}

/// Pixel `(x, y)` lies on one of the two sound-wave rings around
/// `(27, 16)`: distance strictly between 1 and 5, or strictly between 6 and
/// 10 (compared on squared distances).
pub open spec fn in_wave(x: int, y: int) -> bool {
    let d2 = (x - 27) * (x - 27) + (y - 16) * (y - 16);
    (1 < d2 && d2 < 25) || (36 < d2 && d2 < 100)
}

/// Channel `c` (0 red, 1 green, 2 blue, 3 alpha) of pixel `(x, y)`:
/// body and cone in the app blue, waves in light blue, the rest
/// transparent black.
pub open spec fn icon_channel(x: int, y: int, c: int) -> u8 {
    if in_body(x, y) || in_cone(x, y) {
        if c == 0 { 0x00 } else if c == 1 { 0x78 } else if c == 2 { 0xD4 } else { 255 }
    } else if in_wave(x, y) {
        if c == 0 { 0x6C } else if c == 1 { 0xC1 } else if c == 2 { 0xFF } else { 255 }
    } else {
        0
    }
}

/// Byte `i` of the row-major RGBA buffer.
pub open spec fn icon_byte(i: int) -> u8 {
    icon_channel((i / 4) % 32, (i / 4) / 32, i % 4)
}

fn pixel(x: usize, y: usize) -> (r: (u8, u8, u8, u8))
    requires
        x < 32,
        y < 32,
    ensures
        r.0 == icon_channel(x as int, y as int, 0),
        r.1 == icon_channel(x as int, y as int, 1),
        r.2 == icon_channel(x as int, y as int, 2),
        r.3 == icon_channel(x as int, y as int, 3),
{
    let xi = x as i32;
    let yi = y as i32;
    let in_body = 6 <= xi && xi < 14 && 10 <= yi && yi < 22;
    let dx = xi - 14;
    let in_cone = 14 <= xi && xi < 24 && yi >= 10 + dx && yi <= 21 - dx;
    let wx = xi - 27;
    let wy = yi - 16;
    assert(wx * wx <= 27 * 27 && wy * wy <= 16 * 16) by (nonlinear_arith)
        requires
            -27 <= wx <= 4,
            -16 <= wy <= 15,
    ;
    assert(wx * wx >= 0 && wy * wy >= 0) by (nonlinear_arith);
    let d2 = wx * wx + wy * wy;
    let in_wave = (1 < d2 && d2 < 25) || (36 < d2 && d2 < 100);
    if in_body || in_cone {
        (0x00, 0x78, 0xD4, 255)
    } else if in_wave {
        (0x6C, 0xC1, 0xFF, 255)
    } else {
        (0, 0, 0, 0)
    }
}

/// The speaker glyph as 32×32 RGBA pixels, row by row.
pub fn tray_icon_rgba() -> (r: Vec<u8>)
    ensures
        r@.len() == 32 * 32 * 4,
        forall|i: int| 0 <= i < 32 * 32 * 4 ==> #[trigger] r@[i] == icon_byte(i),
{
    let mut px: Vec<u8> = Vec::new();
    let mut y: usize = 0;
    while y < ICON_SIZE
        invariant
            y <= 32,
            px@.len() == 4 * 32 * y,
            forall|i: int| 0 <= i < px@.len() ==> #[trigger] px@[i] == icon_byte(i),
        decreases 32 - y,
    {
        let mut x: usize = 0;
        assert(4 * 32 * y == 4 * (32 * y + x)) by (nonlinear_arith)
            requires
                x == 0,
        ;
        while x < ICON_SIZE
            invariant
                y < 32,
                x <= 32,
                px@.len() == 4 * (32 * y + x),
                forall|i: int| 0 <= i < px@.len() ==> #[trigger] px@[i] == icon_byte(i),
            decreases 32 - x,
        {
            let (r, g, b, a) = pixel(x, y);
            let ghost k = 4 * (32 * y + x);
            proof {
                assert((k / 4) % 32 == x && (k / 4) / 32 == y) by (nonlinear_arith)
                    requires
                        k == 4 * (32 * y + x),
                        x < 32,
                ;
                assert(((k + 1) / 4) % 32 == x && ((k + 1) / 4) / 32 == y && (k + 1) % 4 == 1)
                    by (nonlinear_arith)
                    requires
                        k == 4 * (32 * y + x),
                        x < 32,
                ;
                assert(((k + 2) / 4) % 32 == x && ((k + 2) / 4) / 32 == y && (k + 2) % 4 == 2)
                    by (nonlinear_arith)
                    requires
                        k == 4 * (32 * y + x),
                        x < 32,
                ;
                assert(((k + 3) / 4) % 32 == x && ((k + 3) / 4) / 32 == y && (k + 3) % 4 == 3)
                    by (nonlinear_arith)
                    requires
                        k == 4 * (32 * y + x),
                        x < 32,
                ;
                assert(k % 4 == 0) by (nonlinear_arith)
                    requires
                        k == 4 * (32 * y + x),
                ;
            }
            px.push(r);
            px.push(g);
            px.push(b);
            px.push(a);
            x = x + 1;
        }
        assert(4 * (32 * y + 32) == 4 * 32 * (y + 1)) by (nonlinear_arith);
        y = y + 1;
    }
    px
}

/// The stable menu id of each command.
pub open spec fn id_of(c: TrayCommand) -> Seq<char> {
    match c {
        TrayCommand::ToggleMute => "mute"@,
        TrayCommand::Reset50 => "reset"@,
        TrayCommand::OpenMixer => "mixer"@,
        TrayCommand::Help => "help"@,
        TrayCommand::Settings => "settings"@,
        TrayCommand::EditConfig => "edit"@,
        TrayCommand::ReloadConfig => "reload"@,
        TrayCommand::Exit => "exit"@,
    }
}

/// Every command's menu id decodes back to that command.
pub proof fn lemma_menu_ids_round_trip(c: TrayCommand)
    ensures
        command_for_id(id_of(c)) == Some(c),
{
    reveal_strlit("mute");
    reveal_strlit("reset");
    reveal_strlit("mixer");
    reveal_strlit("help");
    reveal_strlit("settings");
    reveal_strlit("edit");
    reveal_strlit("reload");
    reveal_strlit("exit");
    let id = id_of(c);
    if c != TrayCommand::ToggleMute {
        assert(id != "mute"@) by {
            if id.len() == 4 {
                assert(id[0] != 'm' || id[1] != 'u');
            }
        }
    }
    if c != TrayCommand::ToggleMute && c != TrayCommand::Reset50 {
        assert(id != "reset"@) by {
            if id.len() == 5 {
                assert(id[0] != 'r' || id[1] != 'e' || id[2] != 's');
            }
        }
    }
    if c != TrayCommand::ToggleMute && c != TrayCommand::Reset50 && c != TrayCommand::OpenMixer {
        assert(id != "mixer"@) by {
            if id.len() == 5 {
                assert(id[0] != 'm');
            }
        }
    }
    if c == TrayCommand::Settings || c == TrayCommand::EditConfig || c == TrayCommand::ReloadConfig
        || c == TrayCommand::Exit {
        assert(id != "help"@) by {
            if id.len() == 4 {
                assert(id[0] != 'h');
            }
        }
    }
    if c == TrayCommand::EditConfig || c == TrayCommand::ReloadConfig || c == TrayCommand::Exit {
        assert(id != "settings"@) by {
            assert(id.len() != 8);
        }
    }
    if c == TrayCommand::ReloadConfig || c == TrayCommand::Exit {
        assert(id != "edit"@) by {
            if id.len() == 4 {
                assert(id[0] != 'e' || id[1] != 'd');
            }
        }
    }
    if c == TrayCommand::Exit {
        assert(id != "reload"@) by {
            assert(id.len() != 6);
        }
    }
}

/// The tray's volume line and tooltip: `VolumeControl — <percent>%`.
pub fn tray_volume_label(percent: u8) -> (r: String)
    ensures
        r@ == "VolumeControl \u{2014} "@ + decimal(percent as nat) + "%"@,
{
    String::from_str("VolumeControl \u{2014} ").concat(decimal_text(percent).as_str()).concat("%")
}

} // verus!
