//! Live vehicle state shown on the dashboard, and the lines of the vehicle
//! configuration file.
use vstd::prelude::*;
use vstd::string::{StrSliceExecFns, StringExecFns};

verus! {

#[derive(Clone, Copy, Debug, PartialEq, Eq, Structural)]
pub enum TurnSignalStatus {
    Off,
    Left,
    Right,
    Hazard,
}

#[derive(Clone, Copy, Debug, PartialEq, Eq, Structural)]
pub struct VehicleData {
    /// Whether throttle input is passed on to the motor controller.
    pub throttleActive: bool,
    /// Current motor revolutions per minute.
    pub engineRPM: i32,
    /// Battery charge in percent.
    pub batteryCharge: i32,
    pub turnSignal: TurnSignalStatus,
    pub fullBeamActive: bool,
}

impl VehicleData {
    /// The state at start-up: throttle active, 2000 rpm, full battery,
    /// turn signal off, full beam off.
    pub fn new() -> (r: VehicleData)
        ensures
            r == (VehicleData {
                throttleActive: true,
                engineRPM: 2000,
                batteryCharge: 100,
                turnSignal: TurnSignalStatus::Off,
                fullBeamActive: false,
            }),
    {
        VehicleData {
            throttleActive: true,
            engineRPM: 2000,
            batteryCharge: 100,
            turnSignal: TurnSignalStatus::Off,
            fullBeamActive: false,
        }
    }
}


/// Unicode white space, as `char::is_whitespace` classifies it.
pub open spec fn is_white(c: char) -> bool {
    let n = c as u32;
    ||| 0x09 <= n <= 0x0D
    ||| n == 0x20
    ||| n == 0x85
    ||| n == 0xA0
    ||| n == 0x1680
    ||| 0x2000 <= n <= 0x200A
    ||| n == 0x2028
    ||| n == 0x2029
    ||| n == 0x202F
    ||| n == 0x205F
    ||| n == 0x3000
}

fn is_white_char(c: char) -> (r: bool)
    ensures
        r == is_white(c),
{
    let n = c as u32;
    (0x09 <= n && n <= 0x0D) || n == 0x20 || n == 0x85 || n == 0xA0 || n == 0x1680 || (0x2000
        <= n && n <= 0x200A) || n == 0x2028 || n == 0x2029 || n == 0x202F || n == 0x205F || n
        == 0x3000
}

/// The text with leading white space removed.
pub open spec fn trim_start(s: Seq<char>) -> Seq<char>
    decreases s.len(),
{
    if s.len() > 0 && is_white(s[0]) {
        trim_start(s.drop_first())
    } else {
        s
    }
}

/// The text with trailing white space removed.
pub open spec fn trim_end(s: Seq<char>) -> Seq<char>
    decreases s.len(),
{
    if s.len() > 0 && is_white(s.last()) {
        trim_end(s.drop_last())
    } else {
        s
    }
}

/// The text with leading and trailing white space removed.
pub open spec fn trim(s: Seq<char>) -> Seq<char> {
    trim_end(trim_start(s))
}

/// Whether `k` is the one position of `=` in the text.
pub open spec fn sole_separator(s: Seq<char>, k: int) -> bool {
    &&& 0 <= k < s.len()
    &&& s[k] == '='
    &&& forall|j: int| 0 <= j < s.len() && s[j] == '=' ==> j == k
}

/// A comment (starting with `#`) or a line of white space only.
pub open spec fn is_skipped_line(s: Seq<char>) -> bool {
    (s.len() > 0 && s[0] == '#') || trim(s).len() == 0
}

/// One line of the vehicle configuration file, classified.
#[derive(Debug, PartialEq, Eq)]
pub enum ConfigLine {
    /// A comment or a blank line.
    Skip,
    /// The `GearRatio` key, with its value text trimmed.
    GearRatio(String),
    /// The `DriveWheelDiameter` key, with its value text trimmed.
    DriveWheelDiameter(String),
    /// A key that is not recognised, trimmed; the line is ignored.
    UnknownKey(String),
    /// Not of the form `Key = Value`: the whole load fails.
    Malformed,
}

/// Finds the first position from `from` on whose character is not white
/// space, or `to`.
fn skip_white_forward(s: &str, from: usize, to: usize) -> (r: usize)
    requires
        from <= to == s@.len(),
    ensures
        from <= r <= to,
        trim_start(s@.subrange(from as int, to as int)) == s@.subrange(r as int, to as int),
        forall|j: int| from <= j < r ==> is_white(s@[j]),
{
    let mut i = from;
    while i < to
        invariant
            from <= i <= to == s@.len(),
            trim_start(s@.subrange(from as int, to as int)) == trim_start(
                s@.subrange(i as int, to as int),
            ),
            forall|j: int| from <= j < i ==> is_white(s@[j]),
        decreases to - i,
    {
        if !is_white_char(s.get_char(i)) {
            return i;
        }
        assert(s@.subrange(i as int, to as int).drop_first() =~= s@.subrange(i + 1, to as int));
        i = i + 1;
    }
    i
}

/// Finds the end of the text in `from..to` once trailing white space is
/// removed.
fn skip_white_backward(s: &str, from: usize, to: usize) -> (r: usize)
    requires
        from <= to <= s@.len(),
    ensures
        from <= r <= to,
        trim_end(s@.subrange(from as int, to as int)) == s@.subrange(from as int, r as int),
{
    let mut i = to;
    while i > from
        invariant
            from <= i <= to <= s@.len(),
            trim_end(s@.subrange(from as int, to as int)) == trim_end(
                s@.subrange(from as int, i as int),
            ),
        decreases i - from,
    {
        if !is_white_char(s.get_char(i - 1)) {
            return i;
        }
        assert(s@.subrange(from as int, i as int).drop_last() =~= s@.subrange(from as int, i - 1));
        i = i - 1;
    }
    i
}

/// The text of `from..to` with leading and trailing white space removed.
fn trimmed(s: &str, from: usize, to: usize) -> (r: String)
    requires
        from <= to == s@.len(),
    ensures
        r@ == trim(s@.subrange(from as int, to as int)),
{
    let a = skip_white_forward(s, from, to);
    let b = skip_white_backward(s, a, to);
    String::from_str(s.substring_char(a, b))
}

/// Classifies one line of the vehicle configuration file. Comments and
/// blank lines are skipped; every other line must hold exactly one `=`,
/// with the key before it and the value after it, each trimmed.
pub fn ParseConfigLine(line: &str) -> (r: ConfigLine)
    ensures
        is_skipped_line(line@) ==> r == ConfigLine::Skip,
        !is_skipped_line(line@) && !(exists|k: int| sole_separator(line@, k)) ==> r
            == ConfigLine::Malformed,
        forall|k: int|
            !is_skipped_line(line@) && #[trigger] sole_separator(line@, k) ==> {
                let key = trim(line@.take(k));
                let value = trim(line@.skip(k + 1));
                if key == "GearRatio"@ {
                    r matches ConfigLine::GearRatio(v) && v@ == value
                } else if key == "DriveWheelDiameter"@ {
                    r matches ConfigLine::DriveWheelDiameter(v) && v@ == value
                } else {
                    r matches ConfigLine::UnknownKey(u) && u@ == key
                }
            },
{
    let n = line.unicode_len();
    if n > 0 && line.get_char(0) == '#' {
        return ConfigLine::Skip;
    }
    let whole = trimmed(line, 0, n);
    assert(line@.subrange(0, n as int) =~= line@);
    if whole.as_str().unicode_len() == 0 {
        return ConfigLine::Skip;
    }
    let mut first: Option<usize> = None;
    let mut repeated = false;
    let mut i: usize = 0;
    while i < n
        invariant
            i <= n == line@.len(),
            first is None ==> forall|j: int| 0 <= j < i ==> line@[j] != '=',
            first is Some ==> first->0 < i && line@[first->0 as int] == '=',
            !repeated && first is Some ==> forall|j: int|
                0 <= j < i && line@[j] == '=' ==> j == first->0,
            repeated ==> first is Some && exists|j: int|
                0 <= j < i && line@[j] == '=' && j != first->0,
        decreases n - i,
    {
        if line.get_char(i) == '=' {
            match first {
                None => {
                    first = Some(i);
                },
                Some(k) => {
                    assert(line@[i as int] == '=' && i as int != k);
                    repeated = true;
                },
            }
        }
        i = i + 1;
    }
    let k = match first {
        Some(k) => k,
        None => {
            assert(!(exists|k: int| sole_separator(line@, k)));
            return ConfigLine::Malformed;
        },
    };
    if repeated {
        assert(!(exists|k: int| sole_separator(line@, k)));
        return ConfigLine::Malformed;
    }
    assert(sole_separator(line@, k as int));
    let keyText = line.substring_char(0, k);
    let key = trimmed(keyText, 0, k);
    assert(keyText@.subrange(0, k as int) =~= line@.take(k as int));
    let valueText = line.substring_char(k + 1, n);
    let value = trimmed(valueText, 0, n - k - 1);
    assert(valueText@.subrange(0, n - k - 1) =~= line@.skip(k + 1));
    let gear = String::from_str("GearRatio");
    let wheel = String::from_str("DriveWheelDiameter");
    proof {
        reveal_strlit("GearRatio");
        reveal_strlit("DriveWheelDiameter");
    }
    if key == gear {
        ConfigLine::GearRatio(value)
    } else if key == wheel {
        ConfigLine::DriveWheelDiameter(value)
    } else {
        ConfigLine::UnknownKey(key)
    }
}

} // verus!
