//! The code report: which files it is made from, in which form it is written, and the rules
//! on the paths that its commands take.

use vstd::prelude::*;
use vstd::string::*;

verus! {

/// The extension of a report in JSON.
pub const JSON: &'static str = ".json";

/// The extension of a report in Markdown.
pub const MD: &'static str = ".md";

/// The ending of the file that a contract build writes.
pub const DRTSC_JSON: &'static str = ".drtsc.json";

/// The ending of the file that a debug build of a contract writes.
pub const DBG_DRTSC_JSON: &'static str = "-dbg.drtsc.json";

/// Whether `text` ends with `suffix`.
pub open spec fn is_suffix(suffix: Seq<char>, text: Seq<char>) -> bool {
    suffix.len() <= text.len() && text.skip(text.len() - suffix.len()) == suffix
}

/// What follows the last `/` of `path`; all of `path` where it has none.
pub open spec fn after_last_slash(path: Seq<char>) -> Seq<char>
    decreases path.len(),
{
    if path.len() == 0 {
        path
    } else if path.last() == '/' {
        Seq::empty()
    } else {
        after_last_slash(path.drop_last()).push(path.last())
    }
}

/// Whether the path `path` ends with `extension`.
pub fn is_path_ends_with(path: &str, extension: &str) -> (r: bool)
    ensures
        r == is_suffix(extension@, path@),
{
    let path_len = path.unicode_len();
    let extension_len = extension.unicode_len();
    if extension_len > path_len {
        return false;
    }
    let start = path_len - extension_len;
    let mut i: usize = 0;
    while i < extension_len
        invariant
            i <= extension_len,
            extension_len == extension@.len(),
            path_len == path@.len(),
            start == path_len - extension_len,
            forall|j: int| 0 <= j < i ==> path@[start + j] == extension@[j],
        decreases extension_len - i,
    {
        if path.get_char(start + i) != extension.get_char(i) {
            assert(path@.skip(start as int)[i as int] != extension@[i as int]);
            return false;
        }
        i += 1;
    }
    assert(path@.skip(start as int) =~= extension@);
    true
}

/// Why a report command turns its paths down.
#[derive(Clone, Copy, Debug, PartialEq, Eq, Structural)]
pub enum ReportError {
    /// A comparison is to be written to a file that is no Markdown file.
    CompareOutputNotMarkdown,
    /// Neither of the two reports to compare is a JSON file.
    CompareInputNotJson,
    /// A conversion is to be written to a file that is no Markdown file.
    ConvertOutputNotMarkdown,
    /// The report to convert is no JSON file.
    ConvertInputNotJson,
    /// A new report is to be written to a file that is neither Markdown nor JSON.
    CreateOutputNotSupported,
}

impl ReportError {
    /// The message with which the command stops.
    pub fn message(&self) -> (r: &'static str)
        ensures
            r@ == match self {
                ReportError::CompareOutputNotMarkdown =>
                    "Compare output is only available for Markdown file extension."@,
                ReportError::CompareInputNotJson =>
                    "Compare baseline and new are only available for JSON file extension."@,
                ReportError::ConvertOutputNotMarkdown =>
                    "Conversion output is only available for Markdown file extension"@,
                ReportError::ConvertInputNotJson =>
                    "Conversion only available from JSON file extension"@,
                ReportError::CreateOutputNotSupported =>
                    "Create report is only available for Markdown or JSON output file."@,
            },
    {
        match self {
            ReportError::CompareOutputNotMarkdown => {
                "Compare output is only available for Markdown file extension."
            },
            ReportError::CompareInputNotJson => {
                "Compare baseline and new are only available for JSON file extension."
            },
            ReportError::ConvertOutputNotMarkdown => {
                "Conversion output is only available for Markdown file extension"
            },
            ReportError::ConvertInputNotJson => {
                "Conversion only available from JSON file extension"
            },
            ReportError::CreateOutputNotSupported => {
                "Create report is only available for Markdown or JSON output file."
            },
        }
    }
}

/// The form in which a report is written.
#[derive(Clone, Copy, Debug, PartialEq, Eq, Structural)]
pub enum ReportFormat {
    Markdown,
    Json,
}

/// Whether a comparison of the reports at `baseline` and `new` may be written to `output`:
/// the output has to be a Markdown file, and at least one of the two reports a JSON file.
pub fn check_compare_paths(output: &str, baseline: &str, new: &str) -> (r: Result<(), ReportError>)
    ensures
        r == (if !is_suffix(MD@, output@) {
            Err::<(), ReportError>(ReportError::CompareOutputNotMarkdown)
        } else if !is_suffix(JSON@, baseline@) && !is_suffix(JSON@, new@) {
            Err(ReportError::CompareInputNotJson)
        } else {
            Ok(())
        }),
{
    if !is_path_ends_with(output, MD) {
        return Err(ReportError::CompareOutputNotMarkdown);
    }
    if !is_path_ends_with(baseline, JSON) && !is_path_ends_with(new, JSON) {
        return Err(ReportError::CompareInputNotJson);
    }
    Ok(())
}

/// Whether the report at `input` may be converted into `output`: the output has to be a
/// Markdown file and the input a JSON file.
pub fn check_convert_paths(output: &str, input: &str) -> (r: Result<(), ReportError>)
    ensures
        r == (if !is_suffix(MD@, output@) {
            Err::<(), ReportError>(ReportError::ConvertOutputNotMarkdown)
        } else if !is_suffix(JSON@, input@) {
            Err(ReportError::ConvertInputNotJson)
        } else {
            Ok(())
        }),
{
    if !is_path_ends_with(output, MD) {
        return Err(ReportError::ConvertOutputNotMarkdown);
    }
    if !is_path_ends_with(input, JSON) {
        return Err(ReportError::ConvertInputNotJson);
    }
    Ok(())
}

/// The form in which a new report is written to `output`: Markdown for a Markdown file,
/// JSON for a JSON file that is no Markdown file, and none for any other file.
pub fn create_report_format(output: &str) -> (r: Result<ReportFormat, ReportError>)
    ensures
        r == (if is_suffix(MD@, output@) {
            Ok::<ReportFormat, ReportError>(ReportFormat::Markdown)
        } else if is_suffix(JSON@, output@) {
            Ok(ReportFormat::Json)
        } else {
            Err(ReportError::CreateOutputNotSupported)
        }),
{
    if !is_path_ends_with(output, JSON) && !is_path_ends_with(output, MD) {
        return Err(ReportError::CreateOutputNotSupported);
    }
    if is_path_ends_with(output, MD) {
        Ok(ReportFormat::Markdown)
    } else {
        Ok(ReportFormat::Json)
    }
}

/// Whether the file at `file_path` goes into a report: it is the file that a contract build
/// wrote, and not that of a debug build.
pub fn is_report_source_file(file_path: &str) -> (r: bool)
    ensures
        r == (is_suffix(DRTSC_JSON@, file_path@) && !is_suffix(DBG_DRTSC_JSON@, file_path@)),
{
    if is_path_ends_with(file_path, DBG_DRTSC_JSON) {
        return false;
    }
    is_path_ends_with(file_path, DRTSC_JSON)
}

/// What the report says of one contract.
#[derive(Clone, Debug)]
pub struct CodeReportJson {
    pub path: String,
    pub size: usize,
    pub has_allocator: bool,
    pub has_panic: String,
}

/// What follows the last `/` of `path`; all of `path` where it has none.
pub fn last_path_segment(path: &str) -> (r: String)
    ensures
        r@ == after_last_slash(path@),
{
    let len = path.unicode_len();
    let mut start: usize = len;
    while start > 0 && path.get_char(start - 1) != '/'
        invariant
            start <= len,
            len == path@.len(),
            forall|j: int| start <= j < len ==> path@[j] != '/',
        decreases start,
    {
        start -= 1;
    }
    proof {
        lemma_after_last_slash(path@, start as int);
    }
    path.substring_char(start, len).to_owned()
}

/// Where no `/` stands from position `start` on, and one stands just before `start` or
/// `start` is the beginning, what follows the last `/` is what stands from `start` on.
proof fn lemma_after_last_slash(path: Seq<char>, start: int)
    requires
        0 <= start <= path.len(),
        forall|j: int| start <= j < path.len() ==> path[j] != '/',
        start > 0 ==> path[start - 1] == '/',
    ensures
        after_last_slash(path) == path.subrange(start, path.len() as int),
    decreases path.len(),
{
    if path.len() == 0 {
        assert(path.subrange(start, path.len() as int) =~= path);
    } else if start == path.len() {
        assert(path.last() == '/');
        assert(path.subrange(start, path.len() as int) =~= Seq::<char>::empty());
    } else {
        let init = path.drop_last();
        assert(path.last() == path[path.len() - 1]);
        lemma_after_last_slash(init, start);
        assert(init.subrange(start, init.len() as int).push(path.last()) =~= path.subrange(
            start,
            path.len() as int,
        ));
    }
}

/// What follows the last `/` holds no `/`, so cutting a path down a second time changes
/// nothing.
pub proof fn lemma_after_last_slash_idempotent(path: Seq<char>)
    ensures
        !after_last_slash(path).contains('/'),
        after_last_slash(after_last_slash(path)) == after_last_slash(path),
    decreases path.len(),
{
    let segment = after_last_slash(path);
    if path.len() == 0 {
    } else if path.last() == '/' {
    } else {
        let init = path.drop_last();
        lemma_after_last_slash_idempotent(init);
        let head = after_last_slash(init);
        assert(segment == head.push(path.last()));
        assert forall|i: int| 0 <= i < segment.len() implies segment[i] != '/' by {
            if i < head.len() {
                assert(head.contains(head[i]));
            }
        }
        assert(segment.drop_last() =~= head);
    }
}

/// Cuts the path of every report down to its last segment. Nothing else changes.
pub fn sanitize_output_path_from_report(reports: &mut Vec<CodeReportJson>)
    ensures
        final(reports)@.len() == old(reports)@.len(),
        forall|i: int|
            0 <= i < old(reports)@.len() ==> {
                &&& (#[trigger] final(reports)@[i]).path@ == after_last_slash(
                    old(reports)@[i].path@,
                )
                &&& final(reports)@[i].size == old(reports)@[i].size
                &&& final(reports)@[i].has_allocator == old(reports)@[i].has_allocator
                &&& final(reports)@[i].has_panic == old(reports)@[i].has_panic
            },
{
    let mut i: usize = 0;
    while i < reports.len()
        invariant
            i <= reports@.len(),
            reports@.len() == old(reports)@.len(),
            forall|j: int|
                0 <= j < i ==> {
                    &&& (#[trigger] reports@[j]).path@ == after_last_slash(old(reports)@[j].path@)
                    &&& reports@[j].size == old(reports)@[j].size
                    &&& reports@[j].has_allocator == old(reports)@[j].has_allocator
                    &&& reports@[j].has_panic == old(reports)@[j].has_panic
                },
            forall|j: int| i <= j < reports@.len() ==> reports@[j] == old(reports)@[j],
        decreases reports.len() - i,
    {
        let segment = last_path_segment(reports[i].path.as_str());
        reports[i].path = segment;
        i += 1;
    }
}

} // verus!
