//! Verified construction of the human-readable strings the gateway emits:
//! decimal renderings of numbers, device and object display names, and the
//! status messages broadcast on the event bus.

use vstd::prelude::*;
use vstd::string::StringExecFns;

verus! {

/// The character for one decimal digit.
pub open spec fn digit_char(d: nat) -> char
    recommends
        d < 10,
{
    if d == 0 {
        '0'
    } else if d == 1 {
        '1'
    } else if d == 2 {
        '2'
    } else if d == 3 {
        '3'
    } else if d == 4 {
        '4'
    } else if d == 5 {
        '5'
    } else if d == 6 {
        '6'
    } else if d == 7 {
        '7'
    } else if d == 8 {
        '8'
    } else {
        '9'
    }
}

/// Decimal rendering of a number, most significant digit first, no sign and
/// no leading zeroes (zero itself renders as one digit).
pub open spec fn dec_digits(n: nat) -> Seq<char>
    decreases n,
{
    if n < 10 {
        seq![digit_char(n)]
    } else {
        dec_digits(n / 10) + seq![digit_char(n % 10)]
    }
}

/// One decimal digit as a string.
fn digit_string(d: u32) -> (s: String)
    requires
        d < 10,
    ensures
        s@ == seq![digit_char(d as nat)],
{
    let s = if d == 0 {
        String::from_str("0")
    } else if d == 1 {
        String::from_str("1")
    } else if d == 2 {
        String::from_str("2")
    } else if d == 3 {
        String::from_str("3")
    } else if d == 4 {
        String::from_str("4")
    } else if d == 5 {
        String::from_str("5")
    } else if d == 6 {
        String::from_str("6")
    } else if d == 7 {
        String::from_str("7")
    } else if d == 8 {
        String::from_str("8")
    } else {
        String::from_str("9")
    };
    proof {
        reveal_strlit("0");
        reveal_strlit("1");
        reveal_strlit("2");
        reveal_strlit("3");
        reveal_strlit("4");
        reveal_strlit("5");
        reveal_strlit("6");
        reveal_strlit("7");
        reveal_strlit("8");
        reveal_strlit("9");
        assert(s@ =~= seq![digit_char(d as nat)]);
    }
    s
}

/// Decimal rendering of a 32-bit number.
pub fn decimal_string(n: u32) -> (s: String)
    ensures
        s@ == dec_digits(n as nat),
    decreases n,
{
    if n < 10 {
        digit_string(n)
    } else {
        let prefix = decimal_string(n / 10);
        let last = digit_string(n % 10);
        let s = prefix.concat(last.as_str());
        proof {
            assert(s@ =~= dec_digits(n as nat));
        }
        s
    }
}

/// Display name given to a discovered device.
pub open spec fn device_name_text(instance: nat) -> Seq<char> {
    "Device "@ + dec_digits(instance)
}

/// Builds the display name of a discovered device.
pub fn device_name(instance: u32) -> (s: String)
    ensures
        s@ == device_name_text(instance as nat),
{
    let s = String::from_str("Device ").concat(decimal_string(instance).as_str());
    proof {
        assert(s@ =~= device_name_text(instance as nat));
    }
    s
}

/// Display name of an object type number, as the codec names the types it
/// knows; numbers it does not know render as `Type` and the number.
pub open spec fn object_type_name_text(t: u16) -> Seq<char> {
    if t == 0 {
        "AnalogInput"@
    } else if t == 1 {
        "AnalogOutput"@
    } else if t == 2 {
        "AnalogValue"@
    } else if t == 3 {
        "BinaryInput"@
    } else if t == 4 {
        "BinaryOutput"@
    } else if t == 5 {
        "BinaryValue"@
    } else if t == 6 {
        "Calendar"@
    } else if t == 7 {
        "Command"@
    } else if t == 8 {
        "Device"@
    } else if t == 9 {
        "EventEnrollment"@
    } else if t == 10 {
        "File"@
    } else if t == 11 {
        "Group"@
    } else if t == 12 {
        "Loop"@
    } else if t == 13 {
        "MultiStateInput"@
    } else if t == 14 {
        "MultiStateOutput"@
    } else if t == 15 {
        "NotificationClass"@
    } else if t == 16 {
        "Program"@
    } else if t == 17 {
        "Schedule"@
    } else if t == 18 {
        "Averaging"@
    } else if t == 19 {
        "MultiStateValue"@
    } else if t == 20 {
        "TrendLog"@
    } else if t == 21 {
        "LifeSafetyPoint"@
    } else if t == 22 {
        "LifeSafetyZone"@
    } else if t == 23 {
        "Accumulator"@
    } else if t == 24 {
        "PulseConverter"@
    } else if t == 25 {
        "EventLog"@
    } else if t == 26 {
        "GlobalGroup"@
    } else if t == 27 {
        "TrendLogMultiple"@
    } else if t == 28 {
        "LoadControl"@
    } else if t == 29 {
        "StructuredView"@
    } else if t == 30 {
        "AccessDoor"@
    } else {
        "Type"@ + dec_digits(t as nat)
    }
}

/// Builds the display name of an object type number.
pub fn object_type_name(t: u16) -> (s: String)
    ensures
        s@ == object_type_name_text(t),
{
    if t == 0 {
        String::from_str("AnalogInput")
    } else if t == 1 {
        String::from_str("AnalogOutput")
    } else if t == 2 {
        String::from_str("AnalogValue")
    } else if t == 3 {
        String::from_str("BinaryInput")
    } else if t == 4 {
        String::from_str("BinaryOutput")
    } else if t == 5 {
        String::from_str("BinaryValue")
    } else if t == 6 {
        String::from_str("Calendar")
    } else if t == 7 {
        String::from_str("Command")
    } else if t == 8 {
        String::from_str("Device")
    } else if t == 9 {
        String::from_str("EventEnrollment")
    } else if t == 10 {
        String::from_str("File")
    } else if t == 11 {
        String::from_str("Group")
    } else if t == 12 {
        String::from_str("Loop")
    } else if t == 13 {
        String::from_str("MultiStateInput")
    } else if t == 14 {
        String::from_str("MultiStateOutput")
    } else if t == 15 {
        String::from_str("NotificationClass")
    } else if t == 16 {
        String::from_str("Program")
    } else if t == 17 {
        String::from_str("Schedule")
    } else if t == 18 {
        String::from_str("Averaging")
    } else if t == 19 {
        String::from_str("MultiStateValue")
    } else if t == 20 {
        String::from_str("TrendLog")
    } else if t == 21 {
        String::from_str("LifeSafetyPoint")
    } else if t == 22 {
        String::from_str("LifeSafetyZone")
    } else if t == 23 {
        String::from_str("Accumulator")
    } else if t == 24 {
        String::from_str("PulseConverter")
    } else if t == 25 {
        String::from_str("EventLog")
    } else if t == 26 {
        String::from_str("GlobalGroup")
    } else if t == 27 {
        String::from_str("TrendLogMultiple")
    } else if t == 28 {
        String::from_str("LoadControl")
    } else if t == 29 {
        String::from_str("StructuredView")
    } else if t == 30 {
        String::from_str("AccessDoor")
    } else {
        String::from_str("Type").concat(decimal_string(t as u32).as_str())
    }
}

/// Display name given to a discovered object: its type name, a space, its
/// instance number.
pub open spec fn object_name_text(t: u16, instance: nat) -> Seq<char> {
    object_type_name_text(t) + " "@ + dec_digits(instance)
}

/// Builds the display name of a discovered object.
pub fn object_name(t: u16, instance: u32) -> (s: String)
    ensures
        s@ == object_name_text(t, instance as nat),
{
    let s = object_type_name(t).concat(" ").concat(decimal_string(instance).as_str());
    proof {
        assert(s@ =~= object_name_text(t, instance as nat));
    }
    s
}

/// Status text announcing a bind attempt.
pub open spec fn binding_text(name: Seq<char>) -> Seq<char> {
    "Binding to "@ + name + "..."@
}

/// Builds the status text announcing a bind attempt.
pub fn binding_message(name: &str) -> (s: String)
    ensures
        s@ == binding_text(name@),
{
    let s = String::from_str("Binding to ").concat(name).concat("...");
    proof {
        assert(s@ =~= binding_text(name@));
    }
    s
}

/// Status text announcing a completed bind.
pub open spec fn bound_text(ip: Seq<char>) -> Seq<char> {
    "Bound to "@ + ip
}

/// Builds the status text announcing a completed bind.
pub fn bound_message(ip: &str) -> (s: String)
    ensures
        s@ == bound_text(ip@),
{
    let s = String::from_str("Bound to ").concat(ip);
    proof {
        assert(s@ =~= bound_text(ip@));
    }
    s
}

/// Status text for a bind request naming an unknown interface.
pub open spec fn interface_not_found_text(name: Seq<char>) -> Seq<char> {
    "Error: Interface not found: "@ + name
}

/// Builds the status text for a bind request naming an unknown interface.
pub fn interface_not_found_message(name: &str) -> (s: String)
    ensures
        s@ == interface_not_found_text(name@),
{
    let s = String::from_str("Error: Interface not found: ").concat(name);
    proof {
        assert(s@ =~= interface_not_found_text(name@));
    }
    s
}

/// Status text for a socket that could not be opened.
pub open spec fn bind_failed_text(name: Seq<char>) -> Seq<char> {
    "Error: Bind failed on "@ + name
}

/// Builds the status text for a socket that could not be opened.
pub fn bind_failed_message(name: &str) -> (s: String)
    ensures
        s@ == bind_failed_text(name@),
{
    let s = String::from_str("Error: Bind failed on ").concat(name);
    proof {
        assert(s@ =~= bind_failed_text(name@));
    }
    s
}

/// Status text for a discovery request arriving while nothing is bound.
pub open spec fn no_interface_text() -> Seq<char> {
    "Error: No interface bound"@
}

/// Builds the status text for a discovery request while nothing is bound.
pub fn no_interface_message() -> (s: String)
    ensures
        s@ == no_interface_text(),
{
    String::from_str("Error: No interface bound")
}

/// Status text confirming the pair of discovery broadcasts.
pub open spec fn who_is_sent_text() -> Seq<char> {
    "Who-Is broadcasts sent"@
}

/// Builds the status text confirming the pair of discovery broadcasts.
pub fn who_is_sent_message() -> (s: String)
    ensures
        s@ == who_is_sent_text(),
{
    String::from_str("Who-Is broadcasts sent")
}

/// Status text confirming a directed Who-Is.
pub open spec fn ping_sent_text(target: Seq<char>) -> Seq<char> {
    "Sent targeted Who-Is to "@ + target
}

/// Builds the status text confirming a directed Who-Is.
pub fn ping_sent_message(target: &str) -> (s: String)
    ensures
        s@ == ping_sent_text(target@),
{
    let s = String::from_str("Sent targeted Who-Is to ").concat(target);
    proof {
        assert(s@ =~= ping_sent_text(target@));
    }
    s
}

/// Status text confirming an object-list request.
pub open spec fn object_list_requested_text(device_id: nat) -> Seq<char> {
    "Requested object list from device "@ + dec_digits(device_id)
}

/// Builds the status text confirming an object-list request.
pub fn object_list_requested_message(device_id: u32) -> (s: String)
    ensures
        s@ == object_list_requested_text(device_id as nat),
{
    let s = String::from_str("Requested object list from device ").concat(
        decimal_string(device_id).as_str(),
    );
    proof {
        assert(s@ =~= object_list_requested_text(device_id as nat));
    }
    s
}

} // verus!
