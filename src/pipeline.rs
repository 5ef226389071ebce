use vstd::prelude::*;
use crate::audit::failure_message;
use crate::audit::failure_message_of;
use crate::audit::no_match_reason;
use crate::audit::no_match_text;
use crate::audit::success_message;
use crate::audit::success_message_of;
use crate::paths::base_name;
use crate::paths::base_name_of;
use crate::paths::extension;
use crate::paths::extension_of;
use crate::paths::join_of;
use crate::paths::join_path;
use crate::paths::parent_dir;
use crate::paths::parent_of;
use crate::templates::normalize_header;
use crate::templates::normalized;
use crate::templates::TemplateMap;

verus! {

/// The kind of a change that the file-system monitor observed.
#[derive(Clone, Copy, Debug, PartialEq, Eq, Structural)]
pub enum ChangeKind {
    /// New bytes were written into an existing file.
    DataModified,
    /// Only metadata (times, permissions, owner) changed.
    MetadataModified,
    /// A name was changed.
    Renamed,
    Created,
    Removed,
    Accessed,
    Other,
}

/// A change is worth routing when it wrote data into a file whose extension
/// is exactly `csv`.
pub open spec fn is_candidate_spec(kind: ChangeKind, path: Seq<char>) -> bool {
    kind == ChangeKind::DataModified && extension_of(path) == Some("csv"@)
}

/// What reading the first line of a candidate file gave.
#[derive(Clone, Debug, PartialEq, Eq)]
pub enum HeaderRead {
    /// The path no longer exists.
    Missing,
    /// The file exists but could not be opened or read; the error's text.
    Failed(String),
    /// The first line, as read (a line ending may remain).
    Line(String),
}

/// The table a file belongs to, if any.
#[derive(Clone, Debug, PartialEq, Eq)]
pub enum RoutingResult {
    Matched(String),
    Unmatched,
}

/// A line to append to the audit log of directory `dir`.
#[derive(Clone, Debug, PartialEq, Eq)]
pub struct AuditRecord {
    pub dir: String,
    pub message: String,
}

/// The outcome of routing one file, and the audit record it calls for.
#[derive(Clone, Debug, PartialEq, Eq)]
pub struct Routed {
    pub result: RoutingResult,
    pub audit: Option<AuditRecord>,
}

/// What the transfer of a file reported.
#[derive(Clone, Debug, PartialEq, Eq)]
pub enum TransferOutcome {
    Success,
    /// The transfer failed; the mechanism's error text.
    Failure(String),
}

/// What is left to do once a transfer has reported.
#[derive(Clone, Debug, PartialEq, Eq)]
pub struct Settlement {
    /// Whether the local file is to be deleted (after the record is written).
    pub delete_source: bool,
    pub audit: Option<AuditRecord>,
}

/// `audit` records `message` in the log of the directory holding `path`; when
/// that directory cannot be told, there is no record.
pub open spec fn records(audit: Option<AuditRecord>, path: Seq<char>, message: Seq<char>) -> bool {
    match parent_of(path) {
        Some(d) => audit matches Some(a) && a.dir@ == d && a.message@ == message,
        None => audit is None,
    }
}

/// The outcome of routing the file at `path`, against the templates `map`,
/// given what reading its first line gave.
pub open spec fn route_post(
    map: Map<Seq<char>, Seq<char>>,
    path: Seq<char>,
    read: HeaderRead,
    r: Result<Routed, String>,
) -> bool {
    match read {
        HeaderRead::Missing => r matches Ok(x) && x.result is Unmatched && x.audit is None,
        HeaderRead::Failed(e) => r matches Err(m) && m@ == e@,
        HeaderRead::Line(l) => r matches Ok(x) && if map.contains_key(normalized(l@)) {
            x.result matches RoutingResult::Matched(t) && t@ == map[normalized(l@)]
                && x.audit is None
        } else {
            x.result is Unmatched && records(
                x.audit,
                path,
                failure_message_of(base_name_of(path), no_match_reason()),
            )
        },
    }
}

/// What a transfer's outcome asks for: the local file goes only after a
/// success, and the outcome is recorded either way.
pub open spec fn settle_post(path: Seq<char>, outcome: TransferOutcome, s: Settlement) -> bool {
    match outcome {
        TransferOutcome::Success => s.delete_source && records(
            s.audit,
            path,
            success_message_of(base_name_of(path)),
        ),
        TransferOutcome::Failure(e) => !s.delete_source && records(
            s.audit,
            path,
            failure_message_of(base_name_of(path), e@),
        ),
    }
}

/// Whether a change of `kind` to `path` is to be routed.
pub fn is_candidate(kind: ChangeKind, path: &str) -> (r: bool)
    ensures
        r == is_candidate_spec(kind, path@),
{
    if kind != ChangeKind::DataModified {
        return false;
    }
    let csv = "csv";
    match extension(path) {
        Some(e) => {
            let c = csv.to_string();
            e == c
        },
        None => false,
    }
}

/// The path to route for a change of `kind` that touched `paths`: the first
/// of them, when the change is a candidate.
pub fn candidate_of(kind: ChangeKind, paths: &Vec<String>) -> (r: Option<String>)
    ensures
        match r {
            Some(p) => paths@.len() > 0 && p@ == paths@[0]@ && is_candidate_spec(kind, p@),
            None => paths@.len() == 0 || !is_candidate_spec(kind, paths@[0]@),
        },
{
    if paths.len() == 0 {
        return None;
    }
    if is_candidate(kind, paths[0].as_str()) {
        Some(paths[0].clone())
    } else {
        None
    }
}

fn record_in_parent(path: &str, message: String) -> (r: Option<AuditRecord>)
    ensures
        records(r, path@, message@),
{
    match parent_dir(path) {
        Some(dir) => Some(AuditRecord { dir, message }),
        None => None,
    }
}

/// Routes the file at `path` by its header line; a header that matches no
/// template is recorded as a failed upload.
pub fn route(map: &TemplateMap, path: &str, read: &HeaderRead) -> (r: Result<Routed, String>)
    requires
        map.wf(),
    ensures
        route_post(map@, path@, *read, r),
{
    match read {
        HeaderRead::Missing => Ok(Routed { result: RoutingResult::Unmatched, audit: None }),
        HeaderRead::Failed(e) => Err(e.clone()),
        HeaderRead::Line(line) => {
            let header = normalize_header(line.as_str());
            match map.lookup(header.as_str()) {
                Some(t) => Ok(Routed { result: RoutingResult::Matched(t), audit: None }),
                None => {
                    let name = base_name(path);
                    let reason = no_match_text();
                    let msg = failure_message(name.as_str(), reason.as_str());
                    Ok(Routed { result: RoutingResult::Unmatched, audit: record_in_parent(path, msg) })
                },
            }
        },
    }
}

/// The record for a file whose header could not be read.
pub fn read_failure_record(path: &str, error: &str) -> (r: Option<AuditRecord>)
    ensures
        records(r, path@, failure_message_of(base_name_of(path@), error@)),
{
    let name = base_name(path);
    record_in_parent(path, failure_message(name.as_str(), error))
}

/// What to do after the transfer of the file at `path` reported `outcome`.
pub fn settle_transfer(path: &str, outcome: &TransferOutcome) -> (r: Settlement)
    ensures
        settle_post(path@, *outcome, r),
{
    let name = base_name(path);
    match outcome {
        TransferOutcome::Success => Settlement {
            delete_source: true,
            audit: record_in_parent(path, success_message(name.as_str())),
        },
        TransferOutcome::Failure(e) => Settlement {
            delete_source: false,
            audit: record_in_parent(path, failure_message(name.as_str(), e.as_str())),
        },
    }
}

/// The remote directory of table `table` under `base_dir`.
pub fn remote_dir(base_dir: &str, table: &str) -> (r: String)
    ensures
        r@ == join_of(base_dir@, table@),
{
    join_path(base_dir, table)
}

/// The characters that keep a special meaning inside a double-quoted shell word.
pub open spec fn is_shell_special(c: char) -> bool {
    c == '"' || c == '$' || c == '`' || c == '\\'
}

/// `s` with a backslash before each character that is special inside double
/// quotes, so that the quoted word stands for `s` itself.
pub open spec fn shell_escaped(s: Seq<char>) -> Seq<char>
    decreases s.len(),
{
    if s.len() == 0 {
        Seq::empty()
    } else if is_shell_special(s.last()) {
        shell_escaped(s.drop_last()) + seq!['\\', s.last()]
    } else {
        shell_escaped(s.drop_last()).push(s.last())
    }
}

/// The text of `s` escaped for use between double quotes in a shell command.
pub fn shell_escape(s: &str) -> (r: String)
    ensures
        r@ == shell_escaped(s@),
{
    let n = s.unicode_len();
    let mut r = String::new();
    let mut i: usize = 0;
    while i < n
        invariant
            i <= n,
            n == s@.len(),
            r@ == shell_escaped(s@.subrange(0, i as int)),
        decreases n - i,
    {
        let c = s.get_char(i);
        let ghost pre = s@.subrange(0, i + 1);
        assert(pre.drop_last() =~= s@.subrange(0, i as int));
        assert(pre.last() == c);
        if c == '"' || c == '$' || c == '`' || c == '\\' {
            r.append("\\");
            proof {
                reveal_strlit("\\");
            }
            assert("\\"@ =~= seq!['\\']);
        }
        let one = s.substring_char(i, i + 1);
        assert(one@ =~= seq![c]);
        r.append(one);
        assert(r@ =~= shell_escaped(pre));
        i = i + 1;
    }
    assert(s@.subrange(0, n as int) =~= s@);
    r
}

/// The command that makes sure `dir` exists on the remote side and then runs
/// the remote copy there; `dir` is quoted and escaped.
pub open spec fn remote_command_of(dir: Seq<char>) -> Seq<char> {
    "--rsync-path=mkdir -p \""@ + shell_escaped(dir) + "\" && rsync"@
}

/// The arguments of the remote copy of `src_file` into directory `table`
/// under `base_dir` on `host`, as `user`: archive mode following links,
/// verbose, compressed, partial transfers staged in `tmp`, and the remote
/// directory created first.
pub fn transfer_args(src_file: &str, user: &str, host: &str, base_dir: &str, table: &str) -> (r:
    Vec<String>)
    ensures
        r@.len() == 5,
        r@[0]@ == "-aLvz"@,
        r@[1]@ == "--partial-dir=tmp"@,
        r@[2]@ == remote_command_of(join_of(base_dir@, table@)),
        r@[3]@ == src_file@,
        r@[4]@ == user@ + "@"@ + host@ + ":"@ + join_of(base_dir@, table@),
{
    let dir = remote_dir(base_dir, table);
    let mut cmd = String::from_str("--rsync-path=mkdir -p \"");
    let quoted = shell_escape(dir.as_str());
    cmd.append(quoted.as_str());
    cmd.append("\" && rsync");
    let mut dest = user.to_string();
    dest.append("@");
    dest.append(host);
    dest.append(":");
    dest.append(dir.as_str());
    let mut r: Vec<String> = Vec::new();
    r.push(String::from_str("-aLvz"));
    r.push(String::from_str("--partial-dir=tmp"));
    r.push(cmd);
    r.push(src_file.to_string());
    r.push(dest);
    r
}

} // verus!
