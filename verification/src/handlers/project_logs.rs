//! The runtime-log browser: listing a project's log directory and serving
//! increments of one log file.

use vstd::prelude::*;
use vstd::utf8::encode_utf8;
use crate::handlers::{log_poll, poll_offset, poll_text, LogRead};
use crate::text::{bytes_le, lemma_lex_total, lemma_lex_transitive, lex_le};
use vstd::string::{StrSliceExecFns, StringExecFns};
use crate::models::Project;
use crate::templates::{ProjectLogViewerTemplate, ProjectLogsTemplate};

verus! {

/// One file of a project's log directory, as listed.
pub struct LogFileInfo {
    pub name: String,
    pub size: u64,
}

/// What the directory listing reports of one entry.
pub struct EntryMetadata {
    pub is_file: bool,
    pub len: u64,
}

/// One entry of a log directory, with its metadata when it could be read.
pub struct DirEntryInfo {
    pub name: String,
    pub metadata: Option<EntryMetadata>,
}

/// The query of a runtime-log poll.
pub struct LogQuery {
    pub offset: u64,
}

/// The answer to a runtime-log poll.
pub struct LogResponse {
    pub text: String,
    pub new_offset: u64,
}

/// The bytes by which files are ordered.
pub open spec fn name_key(f: LogFileInfo) -> Seq<u8> {
    encode_utf8(f.name@)
}

/// Files in ascending name order.
pub open spec fn sorted_by_name(s: Seq<LogFileInfo>) -> bool {
    forall|i: int, j: int| 0 <= i < j < s.len() ==> lex_le(name_key(s[i]), name_key(s[j]))
}

/// The files of `s` named `n`, in their order in `s`.
pub open spec fn named(s: Seq<LogFileInfo>, n: Seq<char>) -> Seq<LogFileInfo> {
    s.filter(|f: LogFileInfo| f.name@ == n)
}

/// The regular files among directory entries whose metadata could be read,
/// in directory order.
pub open spec fn listed_files(entries: Seq<DirEntryInfo>) -> Seq<LogFileInfo>
    decreases entries.len(),
{
    if entries.len() == 0 {
        Seq::empty()
    } else {
        let rest = listed_files(entries.drop_last());
        let e = entries.last();
        match e.metadata {
            Some(m) => if m.is_file {
                rest.push(LogFileInfo { name: e.name, size: m.len })
            } else {
                rest
            },
            None => rest,
        }
    }
}

proof fn lemma_filter_none(s: Seq<LogFileInfo>, n: Seq<char>)
    requires
        forall|k: int| 0 <= k < s.len() ==> (#[trigger] s[k]).name@ != n,
    ensures
        named(s, n) == Seq::<LogFileInfo>::empty(),
    decreases s.len(),
{
    reveal(Seq::filter);
    if s.len() == 0 {
        assert(named(s, n) =~= Seq::<LogFileInfo>::empty());
    } else {
        lemma_filter_none(s.drop_last(), n);
    }
}

proof fn lemma_named_single(x: LogFileInfo, n: Seq<char>)
    ensures
        x.name@ == n ==> named(seq![x], n) == seq![x],
        x.name@ != n ==> named(seq![x], n) == Seq::<LogFileInfo>::empty(),
{
    reveal_with_fuel(Seq::filter, 2);
    assert(seq![x].drop_last() =~= Seq::<LogFileInfo>::empty());
    assert(named(Seq::<LogFileInfo>::empty(), n) =~= Seq::<LogFileInfo>::empty());
    assert(seq![x].last() == x);
    if x.name@ == n {
        assert(Seq::<LogFileInfo>::empty().push(x) =~= seq![x]);
    }
}

proof fn lemma_named_push(s: Seq<LogFileInfo>, x: LogFileInfo, n: Seq<char>)
    ensures
        named(s.push(x), n) == named(s, n) + named(seq![x], n),
{
    assert(s.push(x) =~= s + seq![x]);
    Seq::filter_distributes_over_add(s, seq![x], |f: LogFileInfo| f.name@ == n);
}

/// Inserting `x` just before the files whose names order strictly after its
/// own keeps a sorted list sorted, and adds `x` behind every file of the
/// same name.
proof fn lemma_insert_sorted(r: Seq<LogFileInfo>, j: int, x: LogFileInfo)
    requires
        0 <= j <= r.len(),
        sorted_by_name(r),
        j > 0 ==> lex_le(name_key(r[j - 1]), name_key(x)),
        forall|k: int| j <= k < r.len() ==> !lex_le(name_key(#[trigger] r[k]), name_key(x)),
    ensures
        sorted_by_name(r.insert(j, x)),
        forall|n: Seq<char>| #[trigger] named(r.insert(j, x), n) == named(r, n) + named(seq![x], n),
{
    let new = r.insert(j, x);
    let lo = r.subrange(0, j);
    let hi = r.subrange(j, r.len() as int);
    assert(new =~= lo + seq![x] + hi);
    assert(r =~= lo + hi);
    assert forall|k: int| 0 <= k < j implies lex_le(name_key(#[trigger] r[k]), name_key(x)) by {
        if k < j - 1 {
            lemma_lex_transitive(name_key(r[k]), name_key(r[j - 1]), name_key(x));
        }
    }
    assert forall|k: int| j <= k < r.len() implies lex_le(name_key(x), name_key(#[trigger] r[k]))
        && r[k].name@ != x.name@ by {
        lemma_lex_total(name_key(x), name_key(r[k]));
        lemma_lex_total(name_key(x), name_key(x));
    }
    assert forall|a: int, b: int| 0 <= a < b < new.len() implies lex_le(
        name_key(new[a]),
        name_key(new[b]),
    ) by {
        if b < j {
            assert(new[a] == r[a] && new[b] == r[b]);
        } else if b == j {
            assert(new[a] == r[a]);
        } else if a < j {
            assert(new[a] == r[a] && new[b] == r[b - 1]);
            lemma_lex_transitive(name_key(r[a]), name_key(x), name_key(r[b - 1]));
        } else if a == j {
            assert(new[b] == r[b - 1]);
        } else {
            assert(new[a] == r[a - 1] && new[b] == r[b - 1]);
        }
    }
    assert forall|n: Seq<char>| #[trigger] named(new, n) == named(r, n) + named(seq![x], n) by {
        let p = |f: LogFileInfo| f.name@ == n;
        Seq::filter_distributes_over_add(lo + seq![x], hi, p);
        Seq::filter_distributes_over_add(lo, seq![x], p);
        Seq::filter_distributes_over_add(lo, hi, p);
        lemma_named_single(x, n);
        if x.name@ == n {
            assert forall|k: int| 0 <= k < hi.len() implies (#[trigger] hi[k]).name@ != n by {
                assert(hi[k] == r[j + k]);
            }
            lemma_filter_none(hi, n);
            assert(named(new, n) =~= named(lo, n) + named(seq![x], n));
            assert(named(r, n) =~= named(lo, n));
        } else {
            assert(named(new, n) =~= named(lo, n) + named(hi, n));
        }
    }
}

/// Whether a directory entry is a regular file whose metadata could be read.
pub open spec fn is_regular_file(e: DirEntryInfo) -> bool {
    e.metadata is Some && e.metadata->0.is_file
}

proof fn lemma_listed_contains_regular(entries: Seq<DirEntryInfo>, i: int)
    requires
        0 <= i < entries.len(),
        entries[i].metadata is Some,
        entries[i].metadata->0.is_file,
    ensures
        listed_files(entries).contains(
            LogFileInfo { name: entries[i].name, size: entries[i].metadata->0.len },
        ),
    decreases entries.len(),
{
    let rest = listed_files(entries.drop_last());
    let x = LogFileInfo { name: entries[i].name, size: entries[i].metadata->0.len };
    if i == entries.len() - 1 {
        assert(listed_files(entries) == rest.push(x));
        assert(listed_files(entries)[rest.len() as int] == x);
    } else {
        assert(entries.drop_last()[i] == entries[i]);
        lemma_listed_contains_regular(entries.drop_last(), i);
        let k = choose|k: int| 0 <= k < rest.len() && rest[k] == x;
        assert(listed_files(entries)[k] == x);
    }
}

proof fn lemma_listed_from_regular(entries: Seq<DirEntryInfo>, j: int)
    requires
        0 <= j < listed_files(entries).len(),
    ensures
        exists|i: int|
            0 <= i < entries.len() && (#[trigger] entries[i]).metadata is Some
                && entries[i].metadata->0.is_file && listed_files(entries)[j].name == entries[i].name
                && listed_files(entries)[j].size == entries[i].metadata->0.len,
    decreases entries.len(),
{
    let init = entries.drop_last();
    let rest = listed_files(init);
    if j < rest.len() {
        assert(listed_files(entries)[j] == rest[j]);
        lemma_listed_from_regular(init, j);
        let i = choose|i: int|
            0 <= i < init.len() && (#[trigger] init[i]).metadata is Some
                && init[i].metadata->0.is_file && rest[j].name == init[i].name && rest[j].size
                == init[i].metadata->0.len;
        assert(entries[i] == init[i]);
    } else {
        assert(entries[entries.len() - 1] == entries.last());
    }
}

proof fn lemma_listed_len(entries: Seq<DirEntryInfo>)
    ensures
        listed_files(entries).len() == entries.filter(|e: DirEntryInfo| is_regular_file(e)).len(),
    decreases entries.len(),
{
    reveal(Seq::filter);
    if entries.len() > 0 {
        lemma_listed_len(entries.drop_last());
    }
}

proof fn lemma_named_in(s: Seq<LogFileInfo>, n: Seq<char>, y: LogFileInfo)
    requires
        named(s, n).contains(y),
    ensures
        s.contains(y),
    decreases s.len(),
{
    reveal(Seq::filter);
    if s.len() > 0 {
        let init = s.drop_last();
        if named(init, n).contains(y) {
            lemma_named_in(init, n, y);
            let k = choose|k: int| 0 <= k < init.len() && init[k] == y;
            assert(s[k] == y);
        } else {
            assert(s[s.len() - 1] == y);
        }
    }
}

proof fn lemma_in_named(s: Seq<LogFileInfo>, y: LogFileInfo)
    requires
        s.contains(y),
    ensures
        named(s, y.name@).contains(y),
{
    let k = choose|k: int| 0 <= k < s.len() && s[k] == y;
    s.lemma_filter_contains(|f: LogFileInfo| f.name@ == y.name@, k);
}

/// The listing of a directory holds exactly its regular files: each regular
/// file is in it with its own size, whatever that size, each listed file is
/// a regular file of the directory, and there are as many as there are
/// regular files.
pub proof fn lemma_listed_files_are_the_regular_files(entries: Seq<DirEntryInfo>)
    ensures
        forall|i: int|
            0 <= i < entries.len() && (#[trigger] entries[i]).metadata is Some
                && entries[i].metadata->0.is_file ==> listed_files(entries).contains(
                LogFileInfo { name: entries[i].name, size: entries[i].metadata->0.len },
            ),
        forall|j: int|
            0 <= j < listed_files(entries).len() ==> exists|i: int|
                0 <= i < entries.len() && (#[trigger] entries[i]).metadata is Some
                    && entries[i].metadata->0.is_file && (#[trigger] listed_files(entries)[j]).name
                    == entries[i].name && listed_files(entries)[j].size
                    == entries[i].metadata->0.len,
        listed_files(entries).len() == entries.filter(|e: DirEntryInfo| is_regular_file(e)).len(),
{
    assert forall|i: int|
        0 <= i < entries.len() && (#[trigger] entries[i]).metadata is Some
            && entries[i].metadata->0.is_file implies listed_files(entries).contains(
        LogFileInfo { name: entries[i].name, size: entries[i].metadata->0.len },
    ) by {
        lemma_listed_contains_regular(entries, i);
    }
    assert forall|j: int| 0 <= j < listed_files(entries).len() implies exists|i: int|
        0 <= i < entries.len() && (#[trigger] entries[i]).metadata is Some
            && entries[i].metadata->0.is_file && (#[trigger] listed_files(entries)[j]).name
            == entries[i].name && listed_files(entries)[j].size == entries[i].metadata->0.len by {
        lemma_listed_from_regular(entries, j);
    }
    lemma_listed_len(entries);
}

/// Lists a project's log directory: the regular files among the entries
/// whose metadata could be read, in ascending name order (byte order, as
/// `String` compares), files of equal name in directory order.
pub fn collect_log_files(entries: &Vec<DirEntryInfo>) -> (files: Vec<LogFileInfo>)
    ensures
        sorted_by_name(files@),
        forall|n: Seq<char>| #[trigger] named(files@, n) == named(listed_files(entries@), n),
        // Every regular file of the directory is listed, whatever its size.
        forall|i: int|
            0 <= i < entries@.len() && (#[trigger] entries@[i]).metadata is Some
                && entries@[i].metadata->0.is_file ==> exists|j: int|
                0 <= j < files@.len() && (#[trigger] files@[j]).name == entries@[i].name
                    && files@[j].size == entries@[i].metadata->0.len,
        // Only regular files are listed, with their own sizes.
        forall|j: int|
            0 <= j < files@.len() ==> exists|i: int|
                0 <= i < entries@.len() && (#[trigger] entries@[i]).metadata is Some
                    && entries@[i].metadata->0.is_file && (#[trigger] files@[j]).name
                    == entries@[i].name && files@[j].size == entries@[i].metadata->0.len,
        // Each regular file is listed once.
        files@.len() == entries@.filter(|e: DirEntryInfo| is_regular_file(e)).len(),
{
    let mut files: Vec<LogFileInfo> = Vec::new();
    let mut i: usize = 0;
    while i < entries.len()
        invariant
            i <= entries@.len(),
            sorted_by_name(files@),
            forall|n: Seq<char>| #[trigger] named(files@, n) == named(
                listed_files(entries@.subrange(0, i as int)),
                n,
            ),
            files@.len() == listed_files(entries@.subrange(0, i as int)).len(),
        decreases entries@.len() - i,
    {
        let ghost prefix = entries@.subrange(0, i as int);
        let ghost next = entries@.subrange(0, i + 1);
        assert(next.drop_last() =~= prefix);
        assert(next.last() == entries@[i as int]);
        let entry = &entries[i];
        match &entry.metadata {
            Some(m) => {
                if m.is_file {
                    let x = LogFileInfo { name: entry.name.clone(), size: m.len };
                    let mut j: usize = files.len();
                    while j > 0 && !bytes_le(
                        files[j - 1].name.as_str().as_bytes(),
                        x.name.as_str().as_bytes(),
                    )
                        invariant
                            j <= files@.len(),
                            forall|k: int|
                                j <= k < files@.len() ==> !lex_le(
                                    name_key(#[trigger] files@[k]),
                                    name_key(x),
                                ),
                        decreases j,
                    {
                        j = j - 1;
                    }
                    proof {
                        lemma_insert_sorted(files@, j as int, x);
                        assert forall|n: Seq<char>| #[trigger] named(files@.insert(j as int, x), n)
                            == named(listed_files(next), n) by {
                            lemma_named_push(listed_files(prefix), x, n);
                        }
                    }
                    files.insert(j, x);
                } else {
                    assert(listed_files(next) == listed_files(prefix));
                }
            },
            None => {
                assert(listed_files(next) == listed_files(prefix));
            },
        }
        i = i + 1;
    }
    assert(entries@.subrange(0, entries@.len() as int) =~= entries@);
    let ghost listed = listed_files(entries@);
    proof {
        lemma_listed_len(entries@);
        assert forall|i: int|
            0 <= i < entries@.len() && (#[trigger] entries@[i]).metadata is Some
                && entries@[i].metadata->0.is_file implies exists|j: int|
            0 <= j < files@.len() && (#[trigger] files@[j]).name == entries@[i].name
                && files@[j].size == entries@[i].metadata->0.len by {
            let x = LogFileInfo { name: entries@[i].name, size: entries@[i].metadata->0.len };
            lemma_listed_contains_regular(entries@, i);
            lemma_in_named(listed, x);
            lemma_named_in(files@, x.name@, x);
            let j = choose|j: int| 0 <= j < files@.len() && files@[j] == x;
            assert(files@[j].name == x.name);
        }
        assert forall|j: int| 0 <= j < files@.len() implies exists|i: int|
            0 <= i < entries@.len() && (#[trigger] entries@[i]).metadata is Some
                && entries@[i].metadata->0.is_file && (#[trigger] files@[j]).name
                == entries@[i].name && files@[j].size == entries@[i].metadata->0.len by {
            let y = files@[j];
            assert(files@.contains(y));
            lemma_in_named(files@, y);
            lemma_named_in(listed, y.name@, y);
            let k = choose|k: int| 0 <= k < listed.len() && listed[k] == y;
            lemma_listed_from_regular(entries@, k);
            let i = choose|i: int|
                0 <= i < entries@.len() && (#[trigger] entries@[i]).metadata is Some
                    && entries@[i].metadata->0.is_file && listed[k].name == entries@[i].name
                    && listed[k].size == entries@[i].metadata->0.len;
            assert(files@[j].name == entries@[i].name);
            assert(files@[j].size == entries@[i].metadata->0.len);
        }
    }
    files
}

/// Whether `s` holds two consecutive dots.
pub open spec fn has_dot_dot(s: Seq<char>) -> bool {
    exists|i: int| 0 <= i < s.len() - 1 && s[i] == '.' && #[trigger] s[i + 1] == '.'
}

/// A log file name names a file directly inside the log directory: it holds
/// no path separator and no `..`.
pub open spec fn safe_log_filename(s: Seq<char>) -> bool {
    &&& !s.contains('/')
    &&& !s.contains('\\')
    &&& !has_dot_dot(s)
}

/// A log file name is refused exactly when it holds a '/', a '\\' or two
/// consecutive dots; every other character ('-', '_', digits, single dots,
/// letters of any script) is allowed.
pub proof fn lemma_safe_log_filename_chars(s: Seq<char>)
    ensures
        safe_log_filename(s) <==> (forall|k: int|
            0 <= k < s.len() ==> #[trigger] s[k] != '/' && s[k] != '\\') && (forall|k: int|
            0 <= k < s.len() - 1 ==> !(s[k] == '.' && #[trigger] s[k + 1] == '.')),
{
    if !safe_log_filename(s) {
        if s.contains('/') {
            let k = choose|k: int| 0 <= k < s.len() && s[k] == '/';
            assert(s[k] == '/');
        } else if s.contains('\\') {
            let k = choose|k: int| 0 <= k < s.len() && s[k] == '\\';
            assert(s[k] == '\\');
        } else {
            let k = choose|k: int| 0 <= k < s.len() - 1 && s[k] == '.' && #[trigger] s[k + 1] == '.';
            assert(s[k] == '.' && s[k + 1] == '.');
        }
    } else {
        assert forall|k: int| 0 <= k < s.len() implies #[trigger] s[k] != '/' && s[k] != '\\' by {
            if s[k] == '/' {
                assert(s.contains('/'));
            }
            if s[k] == '\\' {
                assert(s.contains('\\'));
            }
        }
    }
}

/// Checks that a requested log file name cannot leave the log directory.
pub fn is_safe_log_filename(filename: &str) -> (ok: bool)
    ensures
        ok == safe_log_filename(filename@),
        ok <==> (forall|k: int|
            0 <= k < filename@.len() ==> #[trigger] filename@[k] != '/' && filename@[k] != '\\')
            && (forall|k: int|
            0 <= k < filename@.len() - 1 ==> !(filename@[k] == '.' && #[trigger] filename@[k + 1]
                == '.')),
{
    proof {
        lemma_safe_log_filename_chars(filename@);
    }
    let n = filename.unicode_len();
    let ghost s = filename@;
    let mut i: usize = 0;
    let mut prev_dot = false;
    while i < n
        invariant
            n == s.len(),
            s == filename@,
            i <= n,
            forall|k: int| 0 <= k < i ==> s[k] != '/' && s[k] != '\\',
            forall|k: int| 0 <= k < i - 1 ==> !(s[k] == '.' && #[trigger] s[k + 1] == '.'),
            prev_dot == (i > 0 && s[i - 1] == '.'),
        decreases n - i,
    {
        let c = filename.get_char(i);
        if c == '/' || c == '\\' {
            assert(s.contains(s[i as int]));
            return false;
        }
        if c == '.' && prev_dot {
            assert(s[i - 1] == '.' && s[(i - 1) + 1] == '.');
            return false;
        }
        prev_dot = c == '.';
        i = i + 1;
    }
    assert(!has_dot_dot(s)) by {
        assert forall|k: int| 0 <= k < s.len() - 1 implies !(s[k] == '.' && #[trigger] s[k + 1] == '.') by {
        }
    }
    true
}

/// Answers a poll of a project's runtime log: nothing new when the project
/// does not exist, "Invalid filename" when the name could leave the log
/// directory, else the poll of the file as read (`read` is consulted only in
/// that last case). `None` when the next offset would not fit in a `u64`.
pub fn project_log_response(query: &LogQuery, project_found: bool, filename: &str, read: LogRead) -> (r: Option<LogResponse>)
    ensures
        !project_found ==> (r matches Some(resp) && resp.text@ == Seq::<char>::empty()
            && resp.new_offset == query.offset),
        project_found && !safe_log_filename(filename@) ==> (r matches Some(resp) && resp.text@
            == "Invalid filename"@ && resp.new_offset == query.offset),
        project_found && safe_log_filename(filename@) && poll_offset(query.offset, read) <= u64::MAX
            ==> (r matches Some(resp) && resp.text@ == poll_text(query.offset, read)
            && resp.new_offset == poll_offset(query.offset, read)),
        project_found && safe_log_filename(filename@) && poll_offset(query.offset, read) > u64::MAX
            ==> r is None,
{
    if !project_found {
        return Some(LogResponse { text: String::new(), new_offset: query.offset });
    }
    if !is_safe_log_filename(filename) {
        return Some(LogResponse { text: String::from_str("Invalid filename"), new_offset: query.offset });
    }
    match log_poll(query.offset, read) {
        Some((text, new_offset)) => Some(LogResponse { text, new_offset }),
        None => None,
    }
}

/// The log browser of a project, listing its log directory as
/// [`collect_log_files`] does; an unknown project sends the visitor back to
/// the project list ("/projects").
pub fn project_logs_page(lang: String, project: Option<Project>, entries: &Vec<DirEntryInfo>) -> (r: Result<ProjectLogsTemplate, &'static str>)
    ensures
        project is None ==> (r matches Err(to) && to@ == "/projects"@),
        project is Some ==> (r matches Ok(page) && page.lang == lang && page.is_logged_in
            && page.error_msg is None && page.success_msg is None && page.project == project->0
            && sorted_by_name(page.log_files@) && forall|n: Seq<char>| #[trigger] named(page.log_files@, n)
            == named(listed_files(entries@), n)),
{
    match project {
        None => Err("/projects"),
        Some(project) => {
            let log_files = collect_log_files(entries);
            Ok(
                ProjectLogsTemplate {
                    lang,
                    is_logged_in: true,
                    error_msg: None,
                    success_msg: None,
                    project,
                    log_files,
                },
            )
        },
    }
}

/// The live viewer of one log file of a project; an unknown project sends
/// the visitor back to the project list ("/projects").
pub fn project_log_viewer_page(lang: String, project: Option<Project>, filename: String) -> (r: Result<ProjectLogViewerTemplate, &'static str>)
    ensures
        project is None ==> (r matches Err(to) && to@ == "/projects"@),
        project is Some ==> (r matches Ok(page) && page.lang == lang && page.is_logged_in
            && page.error_msg is None && page.success_msg is None && page.project == project->0
            && page.filename == filename),
{
    match project {
        None => Err("/projects"),
        Some(project) => Ok(
            ProjectLogViewerTemplate {
                lang,
                is_logged_in: true,
                error_msg: None,
                success_msg: None,
                project,
                filename,
            },
        ),
    }
}

} // verus!
