use vstd::prelude::*;
use crate::audit::failure_message_of;
use crate::audit::failure_prefix;
use crate::audit::no_match_reason;
use crate::audit::reason_label;
use crate::audit::success_message_of;
use crate::audit::success_prefix;
use crate::paths::base_name_of;
use crate::paths::extension_of;
use crate::paths::names_file;
use crate::paths::parent_of;
use crate::pipeline::is_candidate_spec;
use crate::pipeline::route_post;
use crate::pipeline::settle_post;
use crate::pipeline::ChangeKind;
use crate::pipeline::HeaderRead;
use crate::pipeline::Routed;
use crate::pipeline::RoutingResult;
use crate::pipeline::Settlement;
use crate::pipeline::TransferOutcome;
use crate::templates::normalized;

verus! {

/// `part` occurs somewhere in `s`.
pub open spec fn contains_text(s: Seq<char>, part: Seq<char>) -> bool {
    exists|i: int| 0 <= i <= s.len() - part.len() && #[trigger] s.subrange(i, i + part.len()) == part
}

proof fn lemma_contains_inner(x: Seq<char>, part: Seq<char>, y: Seq<char>)
    ensures
        contains_text(x + part + y, part),
{
    let s = x + part + y;
    assert(s.subrange(x.len() as int, (x.len() + part.len()) as int) =~= part);
}

/// A file whose first line, once its line ending and one trailing comma are
/// removed, equals a header registered for a table is routed to that table,
/// with no audit record.
pub proof fn registered_header_routes(
    m: Map<Seq<char>, Seq<char>>,
    header: Seq<char>,
    table: Seq<char>,
    path: Seq<char>,
    line: String,
    r: Result<Routed, String>,
)
    requires
        normalized(line@) == header,
        route_post(m.insert(header, table), path, HeaderRead::Line(line), r),
    ensures
        r matches Ok(x) && (x.result matches RoutingResult::Matched(t) && t@ == table)
            && x.audit is None,
{
}

/// A registered header that does not itself end in a comma, a carriage
/// return or a line feed matches a first line that is the header, followed by
/// at most one comma and then at most one line ending (`\n` or `\r\n`).
pub proof fn registered_header_line_routes(
    m: Map<Seq<char>, Seq<char>>,
    header: Seq<char>,
    table: Seq<char>,
    path: Seq<char>,
    line: String,
    r: Result<Routed, String>,
)
    requires
        header.len() == 0 || (header.last() != ',' && header.last() != '\r' && header.last()
            != '\n'),
        line@ == header || line@ == header.push('\n') || line@ == header.push('\r').push('\n')
            || line@ == header.push(',') || line@ == header.push(',').push('\n') || line@
            == header.push(',').push('\r').push('\n'),
        route_post(m.insert(header, table), path, HeaderRead::Line(line), r),
    ensures
        r matches Ok(x) && (x.result matches RoutingResult::Matched(t) && t@ == table)
            && x.audit is None,
{
    let l = line@;
    assert(header.push('\n').drop_last() =~= header);
    assert(header.push('\r').drop_last() =~= header);
    assert(header.push(',').drop_last() =~= header);
    assert(header.push('\r').push('\n').drop_last() =~= header.push('\r'));
    assert(header.push(',').push('\n').drop_last() =~= header.push(','));
    assert(header.push(',').push('\r').push('\n').drop_last() =~= header.push(',').push('\r'));
    assert(header.push(',').push('\r').drop_last() =~= header.push(','));
    assert(normalized(l) == header);
    registered_header_routes(m, header, table, path, line, r);
}

/// A file whose header matches no registered template is unmatched, and one
/// audit record, in the log of the file's directory, says that no matching
/// table headers were found.
pub proof fn unmatched_header_is_recorded(
    m: Map<Seq<char>, Seq<char>>,
    path: Seq<char>,
    line: String,
    r: Result<Routed, String>,
)
    requires
        !m.contains_key(normalized(line@)),
        names_file(path),
        route_post(m, path, HeaderRead::Line(line), r),
    ensures
        r matches Ok(x) && x.result is Unmatched && (x.audit matches Some(a) && parent_of(path)
            == Some(a.dir@) && contains_text(a.message@, "No matching table headers found"@)),
{
    let part = "No matching table headers found"@;
    let rest = failure_prefix() + base_name_of(path) + reason_label();
    reveal_strlit("No matching table headers found.");
    reveal_strlit("No matching table headers found");
    reveal_strlit(".");
    assert(failure_message_of(base_name_of(path), no_match_reason()) =~= rest + part + "."@);
    lemma_contains_inner(rest, part, "."@);
}

/// After a successful transfer the local file is to be deleted, and one audit
/// record says that the upload succeeded and names the file.
pub proof fn successful_dispatch_is_recorded(path: Seq<char>, s: Settlement)
    requires
        names_file(path),
        settle_post(path, TransferOutcome::Success, s),
    ensures
        s.delete_source,
        s.audit matches Some(a) && parent_of(path) == Some(a.dir@) && contains_text(
            a.message@,
            "Upload succeeded!"@,
        ) && contains_text(a.message@, base_name_of(path)),
{
    let head = "Upload succeeded!"@;
    let b = base_name_of(path);
    reveal_strlit("Upload succeeded! File: ");
    reveal_strlit("Upload succeeded!");
    reveal_strlit(" File: ");
    assert(success_message_of(b) =~= Seq::<char>::empty() + head + (" File: "@ + b));
    lemma_contains_inner(Seq::empty(), head, " File: "@ + b);
    assert(success_message_of(b) =~= success_prefix() + b + Seq::<char>::empty());
    lemma_contains_inner(success_prefix(), b, Seq::empty());
}

/// After a failed transfer the local file stays, and one audit record says
/// that the upload failed and gives the transfer's reason.
pub proof fn failed_dispatch_is_recorded(path: Seq<char>, reason: String, s: Settlement)
    requires
        names_file(path),
        settle_post(path, TransferOutcome::Failure(reason), s),
    ensures
        !s.delete_source,
        s.audit matches Some(a) && parent_of(path) == Some(a.dir@) && contains_text(
            a.message@,
            "Upload failed!"@,
        ) && contains_text(a.message@, reason@),
{
    let head = "Upload failed!"@;
    let b = base_name_of(path);
    reveal_strlit("Upload failed! File: ");
    reveal_strlit("Upload failed!");
    reveal_strlit(" File: ");
    let msg = failure_message_of(b, reason@);
    assert(msg =~= Seq::<char>::empty() + head + (" File: "@ + b + reason_label() + reason@));
    lemma_contains_inner(Seq::empty(), head, " File: "@ + b + reason_label() + reason@);
    assert(msg =~= (failure_prefix() + b + reason_label()) + reason@ + Seq::<char>::empty());
    lemma_contains_inner(failure_prefix() + b + reason_label(), reason@, Seq::empty());
}

/// Routing a path that no longer exists is unmatched, with no error and no
/// audit record.
pub proof fn missing_file_is_skipped(
    m: Map<Seq<char>, Seq<char>>,
    path: Seq<char>,
    r: Result<Routed, String>,
)
    requires
        route_post(m, path, HeaderRead::Missing, r),
    ensures
        r matches Ok(x) && x.result is Unmatched && x.audit is None,
{
}

/// A change to a file whose extension is not exactly `csv` is never routed.
pub proof fn non_csv_change_is_ignored(kind: ChangeKind, path: Seq<char>)
    requires
        extension_of(path) != Some("csv"@),
    ensures
        !is_candidate_spec(kind, path),
{
}

} // verus!
