use vstd::prelude::*;
use crate::paths::join_of;
use crate::paths::join_path;

verus! {

/// The name of the audit log kept in each directory that files arrive in.
pub open spec fn log_file_name() -> Seq<char> {
    "upload.log"@
}

/// The reason given for a file whose header matches no template.
pub open spec fn no_match_reason() -> Seq<char> {
    "No matching table headers found."@
}

pub open spec fn success_prefix() -> Seq<char> {
    "Upload succeeded! File: "@
}

pub open spec fn failure_prefix() -> Seq<char> {
    "Upload failed! File: "@
}

pub open spec fn reason_label() -> Seq<char> {
    " Reason: "@
}

/// `Upload succeeded! File: <name>`
pub open spec fn success_message_of(name: Seq<char>) -> Seq<char> {
    success_prefix() + name
}

/// `Upload failed! File: <name> Reason: <reason>`
pub open spec fn failure_message_of(name: Seq<char>, reason: Seq<char>) -> Seq<char> {
    failure_prefix() + name + reason_label() + reason
}

/// `<timestamp> - <message>` and a line ending.
pub open spec fn audit_line_of(stamp: Seq<char>, message: Seq<char>) -> Seq<char> {
    stamp + " - "@ + message + "\n"@
}

/// The audit log of directory `dir`.
pub open spec fn log_path_of(dir: Seq<char>) -> Seq<char> {
    join_of(dir, log_file_name())
}

/// The message recorded when a file was transferred.
pub fn success_message(name: &str) -> (r: String)
    ensures
        r@ == success_message_of(name@),
{
    let mut r = String::from_str("Upload succeeded! File: ");
    r.append(name);
    r
}

/// The message recorded when a file could not be routed or transferred.
pub fn failure_message(name: &str, reason: &str) -> (r: String)
    ensures
        r@ == failure_message_of(name@, reason@),
{
    let mut r = String::from_str("Upload failed! File: ");
    r.append(name);
    r.append(" Reason: ");
    r.append(reason);
    r
}

/// The reason recorded for a file whose header matches no template.
pub fn no_match_text() -> (r: String)
    ensures
        r@ == no_match_reason(),
{
    String::from_str("No matching table headers found.")
}

/// The path of the audit log of directory `dir`.
pub fn log_path(dir: &str) -> (r: String)
    ensures
        r@ == log_path_of(dir@),
{
    join_path(dir, "upload.log")
}

/// One line of an audit log, with its line ending.
pub fn audit_line(stamp: &Timestamp, message: &str) -> (r: String)
    requires
        stamp.wf(),
    ensures
        r@ == audit_line_of(stamp.text(), message@),
{
    let mut r = stamp.format();
    r.append(" - ");
    r.append(message);
    r.append("\n");
    r
}

/// The decimal digit `d` as a character.
pub open spec fn digit_char(d: nat) -> char {
    if d == 0 { '0' }
    else if d == 1 { '1' }
    else if d == 2 { '2' }
    else if d == 3 { '3' }
    else if d == 4 { '4' }
    else if d == 5 { '5' }
    else if d == 6 { '6' }
    else if d == 7 { '7' }
    else if d == 8 { '8' }
    else { '9' }
}

/// The last `width` decimal digits of `v`, with leading zeros.
pub open spec fn padded(v: nat, width: nat) -> Seq<char>
    decreases width,
{
    if width == 0 {
        Seq::empty()
    } else {
        padded(v / 10, (width - 1) as nat).push(digit_char(v % 10))
    }
}

fn append_digit(s: &mut String, d: u32)
    requires
        d < 10,
    ensures
        final(s)@ == old(s)@.push(digit_char(d as nat)),
{
    let t = if d == 0 { "0" }
        else if d == 1 { "1" }
        else if d == 2 { "2" }
        else if d == 3 { "3" }
        else if d == 4 { "4" }
        else if d == 5 { "5" }
        else if d == 6 { "6" }
        else if d == 7 { "7" }
        else if d == 8 { "8" }
        else { "9" };
    proof {
        reveal_strlit("0");
        reveal_strlit("1");
        reveal_strlit("2");
        reveal_strlit("3");
        reveal_strlit("4");
        reveal_strlit("5");
        reveal_strlit("6");
        reveal_strlit("7");
        reveal_strlit("8");
        reveal_strlit("9");
    }
    assert(t@ =~= seq![digit_char(d as nat)]);
    s.append(t);
}

fn append_padded(s: &mut String, v: u32, width: u32)
    ensures
        final(s)@ == old(s)@ + padded(v as nat, width as nat),
    decreases width,
{
    if width == 0 {
        assert(old(s)@ + Seq::<char>::empty() =~= old(s)@);
    } else {
        append_padded(s, v / 10, width - 1);
        append_digit(s, v % 10);
        assert(s@ =~= old(s)@ + padded(v as nat, width as nat));
    }
}

/// A local date and time to the second, as the audit log writes it.
pub struct Timestamp {
    pub year: u32,
    pub month: u32,
    pub day: u32,
    pub hour: u32,
    pub minute: u32,
    pub second: u32,
}

impl Timestamp {
    /// Every field within its calendar range; the year has four digits.
    pub open spec fn wf(&self) -> bool {
        &&& self.year <= 9999
        &&& 1 <= self.month <= 12
        &&& 1 <= self.day <= 31
        &&& self.hour < 24
        &&& self.minute < 60
        &&& self.second < 60
    }

    /// `YYYY-MM-DD HH:MM:SS`
    pub open spec fn text(&self) -> Seq<char> {
        padded(self.year as nat, 4) + "-"@ + padded(self.month as nat, 2) + "-"@
            + padded(self.day as nat, 2) + " "@ + padded(self.hour as nat, 2) + ":"@
            + padded(self.minute as nat, 2) + ":"@ + padded(self.second as nat, 2)
    }

    /// The timestamp for these fields, or `None` when one is out of range.
    pub fn new(year: u32, month: u32, day: u32, hour: u32, minute: u32, second: u32) -> (r: Option<
        Timestamp,
    >)
        ensures
            match r {
                Some(t) => t.wf() && t.year == year && t.month == month && t.day == day
                    && t.hour == hour && t.minute == minute && t.second == second,
                None => !(Timestamp { year, month, day, hour, minute, second }).wf(),
            },
    {
        let t = Timestamp { year, month, day, hour, minute, second };
        if year <= 9999 && 1 <= month && month <= 12 && 1 <= day && day <= 31 && hour < 24
            && minute < 60 && second < 60 {
            Some(t)
        } else {
            None
        }
    }

    /// The timestamp as the audit log writes it.
    pub fn format(&self) -> (r: String)
        requires
            self.wf(),
        ensures
            r@ == self.text(),
    {
        let mut r = String::new();
        append_padded(&mut r, self.year, 4);
        r.append("-");
        append_padded(&mut r, self.month, 2);
        r.append("-");
        append_padded(&mut r, self.day, 2);
        r.append(" ");
        append_padded(&mut r, self.hour, 2);
        r.append(":");
        append_padded(&mut r, self.minute, 2);
        r.append(":");
        append_padded(&mut r, self.second, 2);
        assert(r@ =~= self.text());
        r
    }
}

} // verus!
