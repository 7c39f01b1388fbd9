//! The flat-file tailing receiver: its settings, the file patterns it
//! tails and the exclude set, and the tailing decisions for each poll.

use vstd::prelude::*;
use crate::json::{JsonValue, JsonMap, JVal, JObj, obj_model, lookup, map_get, map_insert};
use crate::event::{Event, EventModel};
use crate::checkpoint::{FileIdentity, CheckpointStore};
use crate::config::{spec_parse_duration, duration_fits_exec, parse_duration};
use crate::op_def::{def_object, req_str, prefixed, prefix_error, read_def_object, read_req_str, read_opt_str};
use crate::config::{string_list, read_string_list, names};
use crate::text::{str_eq, append_str};

verus! {

/// Where tailing of a newly seen file starts when there is no saved offset.
#[derive(Clone, Copy, Debug, PartialEq, Eq, Structural)]
pub enum StartAt {
    Beginning,
    End,
}

impl StartAt {
    pub fn default() -> (r: StartAt)
        ensures
            r == StartAt::End,
    {
        StartAt::End
    }
}

pub fn default_poll_interval() -> (r: String)
    ensures
        r@ == "500ms"@,
{
    "500ms".to_owned()
}

/// A file receiver's settings.
pub struct FileLogConfig {
    pub includes: Vec<String>,
    pub exclude: Vec<String>,
    pub start_at: StartAt,
    pub poll_interval_ms: u64,
    pub checkpoint_file: String,
}

/// A list of strings that may be left out.
pub open spec fn opt_list(o: JObj, key: Seq<char>) -> Result<Seq<Seq<char>>, Seq<char>> {
    match lookup(o, key) {
        None => Ok(Seq::empty()),
        Some(v) => match string_list(v) {
            Some(l) => Ok(l),
            None => Err("invalid type for `"@ + key + "`, expected a list of strings"@),
        },
    }
}

/// `start_at`: `beginning` or `end` (the default).
pub open spec fn start_at_def(o: JObj) -> Result<StartAt, Seq<char>> {
    match lookup(o, "start_at"@) {
        None => Ok(StartAt::End),
        Some(JVal::Str(s)) => if s == "beginning"@ {
            Ok(StartAt::Beginning)
        } else if s == "end"@ {
            Ok(StartAt::End)
        } else {
            Err("unknown variant `"@ + s + "`, expected `beginning` or `end`"@)
        },
        Some(_) => Err("invalid type for `start_at`, expected a string"@),
    }
}

/// The key that lists the file patterns to tail.
pub open spec fn inclusion_key() -> Seq<char> {
    seq!['i', 'n', 'c', 'l', 'u', 'd', 'e']
}

fn inclusion_key_text() -> (r: String)
    ensures
        r@ == inclusion_key(),
{
    let mut s = String::new();
    let cs = ['i', 'n', 'c', 'l', 'u', 'd', 'e'];
    let mut i: usize = 0;
    while i < 7
        invariant
            i <= 7,
            cs@ == inclusion_key(),
            s@ == inclusion_key().take(i as int),
        decreases 7 - i,
    {
        let ghost prev = s@;
        crate::text::push_char(&mut s, cs[i]);
        assert(s@ =~= inclusion_key().take(i + 1));
        i = i + 1;
    }
    assert(s@ =~= inclusion_key());
    s
}

/// The settings a definition describes: file patterns, exclude, start, poll
/// interval (milliseconds), checkpoint file.
pub open spec fn file_log_def(v: JVal) -> Result<(Seq<Seq<char>>, Seq<Seq<char>>, StartAt, nat, Seq<char>), Seq<char>> {
    match def_object(v) {
        Err(e) => Err(e),
        Ok(o) => match lookup(o, inclusion_key()) {
            None => Err("missing field `"@ + inclusion_key() + "`"@),
            Some(iv) => match string_list(iv) {
                None => Err("invalid type for `"@ + inclusion_key() + "`, expected a list of strings"@),
                Some(inc) => match opt_list(o, "exclude"@) {
                    Err(e) => Err(e),
                    Ok(exc) => match start_at_def(o) {
                        Err(e) => Err(e),
                        Ok(sa) => match crate::op_def::opt_str(o, "poll_interval"@, "500ms"@) {
                            Err(e) => Err(e),
                            Ok(pi) => match req_str(o, "checkpoint_file"@) {
                                Err(e) => Err(e),
                                Ok(cf) => match spec_parse_duration(pi) {
                                    Err(e) => Err("invalid poll_interval: "@ + e),
                                    Ok(ms) => if ms <= u64::MAX {
                                        Ok((inc, exc, sa, ms, cf))
                                    } else {
                                        Err("invalid poll_interval: duration out of range"@)
                                    },
                                },
                            },
                        },
                    },
                },
            },
        },
    }
}

fn read_start_at(o: &JsonMap) -> (r: Result<StartAt, String>)
    ensures
        match start_at_def(obj_model(o@)) {
            Ok(s) => r == Ok::<StartAt, String>(s),
            Err(e) => r matches Err(x) && x@ == e,
        },
{
    match map_get(o, "start_at") {
        None => Ok(StartAt::End),
        Some(JsonValue::Str(s)) => if str_eq(s.as_str(), "beginning") {
            Ok(StartAt::Beginning)
        } else if str_eq(s.as_str(), "end") {
            Ok(StartAt::End)
        } else {
            let mut m = String::new();
            append_str(&mut m, "unknown variant `");
            append_str(&mut m, s.as_str());
            append_str(&mut m, "`, expected `beginning` or `end`");
            assert(m@ =~= "unknown variant `"@ + s@ + "`, expected `beginning` or `end`"@);
            Err(m)
        },
        Some(_) => Err("invalid type for `start_at`, expected a string".to_owned()),
    }
}

fn read_file_log_def(value: &JsonValue) -> (r: Result<FileLogConfig, String>)
    ensures
        match file_log_def(value@) {
            Ok((inc, exc, sa, ms, cf)) => r matches Ok(c) && names(c.includes@) == inc && names(c.exclude@) == exc
                && c.start_at == sa && c.poll_interval_ms == ms && c.checkpoint_file@ == cf,
            Err(e) => r matches Err(x) && x@ == e,
        },
{
    let o = read_def_object(value)?;
    let key = inclusion_key_text();
    let includes = match map_get(o, key.as_str()) {
        None => {
            let mut m = String::new();
            append_str(&mut m, "missing field `");
            append_str(&mut m, key.as_str());
            append_str(&mut m, "`");
            assert(m@ =~= "missing field `"@ + inclusion_key() + "`"@);
            return Err(m);
        },
        Some(v) => match read_string_list(v) {
            Some(l) => l,
            None => {
                let mut m = String::new();
                append_str(&mut m, "invalid type for `");
                append_str(&mut m, key.as_str());
                append_str(&mut m, "`, expected a list of strings");
                assert(m@ =~= "invalid type for `"@ + inclusion_key() + "`, expected a list of strings"@);
                return Err(m);
            },
        },
    };
    let exclude = match map_get(o, "exclude") {
        None => {
            let e: Vec<String> = Vec::new();
            assert(names(e@) =~= Seq::<Seq<char>>::empty());
            e
        },
        Some(v) => match read_string_list(v) {
            Some(l) => l,
            None => {
                let mut m = String::new();
                append_str(&mut m, "invalid type for `");
                append_str(&mut m, "exclude");
                append_str(&mut m, "`, expected a list of strings");
                assert(m@ =~= "invalid type for `"@ + "exclude"@ + "`, expected a list of strings"@);
                return Err(m);
            },
        },
    };
    let start_at = read_start_at(o)?;
    let dpi = default_poll_interval();
    let pi = read_opt_str(o, "poll_interval", dpi.as_str())?;
    let cf = read_req_str(o, "checkpoint_file")?;
    if !duration_fits_exec(pi.as_str()) {
        return Err("invalid poll_interval: duration out of range".to_owned());
    }
    let ms = match parse_duration(pi.as_str()) {
        Ok(ms) => ms,
        Err(e) => {
            let mut m = String::new();
            append_str(&mut m, "invalid poll_interval: ");
            append_str(&mut m, e.as_str());
            assert(m@ =~= "invalid poll_interval: "@ + e@);
            return Err(m);
        },
    };
    Ok(FileLogConfig { includes, exclude, start_at, poll_interval_ms: ms, checkpoint_file: cf })
}

impl FileLogConfig {
    /// Reads the settings; errors are prefixed with the receiver's id.
    pub fn from_value(id: &str, value: &JsonValue) -> (r: Result<FileLogConfig, String>)
        ensures
            match file_log_def(value@) {
                Ok((inc, exc, sa, ms, cf)) => r matches Ok(c) && names(c.includes@) == inc && names(c.exclude@) == exc
                    && c.start_at == sa && c.poll_interval_ms == ms && c.checkpoint_file@ == cf,
                Err(e) => r matches Err(x) && x@ == prefixed(id@, e),
            },
    {
        match read_file_log_def(value) {
            Ok(c) => Ok(c),
            Err(e) => Err(prefix_error(id, e.as_str())),
        }
    }
}

} // verus!

verus! {

#[verifier::external_type_specification]
#[verifier::external_body]
pub struct ExGlob(globset::Glob);

#[verifier::external_type_specification]
#[verifier::external_body]
pub struct ExGlobSet(globset::GlobSet);

/// What `std::path::Path::parent` gives for a path text.
pub uninterp spec fn spec_path_parent(s: Seq<char>) -> Option<Seq<char>>;

/// What `std::path::Path::file_name` gives for a path text.
pub uninterp spec fn spec_path_file_name(s: Seq<char>) -> Option<Seq<char>>;

/// What `globset::Glob::new` says of a pattern: `None` when it compiles,
/// else the error's message.
pub uninterp spec fn spec_glob_error(p: Seq<char>) -> Option<Seq<char>>;

/// Whether the compiled matcher of a pattern matches a text
/// (`Glob::compile_matcher`, then `GlobMatcher::is_match`).
pub uninterp spec fn spec_glob_is_match(p: Seq<char>, t: Seq<char>) -> bool;

/// What `globset::GlobSet::new` says of the compiled patterns, in order:
/// `None` when the set builds, else the error's message.
pub uninterp spec fn spec_globset_error(ps: Seq<Seq<char>>) -> Option<Seq<char>>;

/// `Path::new(s).parent()`, as text.
#[verifier::external_body]
fn path_parent(s: &str) -> (r: Option<String>)
    ensures
        match spec_path_parent(s@) {
            Some(p) => r matches Some(x) && x@ == p,
            None => r is None,
        },
{
    std::path::Path::new(s).parent().map(|p| p.to_string_lossy().into_owned())
}

/// `Path::new(s).file_name()`, as text.
#[verifier::external_body]
fn path_file_name(s: &str) -> (r: Option<String>)
    ensures
        match spec_path_file_name(s@) {
            Some(p) => r matches Some(x) && x@ == p,
            None => r is None,
        },
{
    std::path::Path::new(s).file_name().map(|p| p.to_string_lossy().into_owned())
}

/// A compiled glob and the pattern it was compiled from. Only `glob_new`
/// makes one, so the pattern is always the glob's own.
pub struct CompiledGlob {
    pattern: String,
    glob: globset::Glob,
}

impl CompiledGlob {
    pub closed spec fn pattern_view(&self) -> Seq<char> {
        self.pattern@
    }
}

/// `Glob::new(p)`, kept with `p`; the error, if any, is the one
/// `spec_glob_error` names.
#[verifier::external_body]
fn glob_new(p: &str) -> (r: Result<CompiledGlob, String>)
    ensures
        match spec_glob_error(p@) {
            None => r matches Ok(g) && g.pattern_view() == p@,
            Some(e) => r matches Err(m) && m@ == e,
        },
{
    globset::Glob::new(p).map(|glob| CompiledGlob { pattern: p.to_owned(), glob }).map_err(|e| e.to_string())
}

/// The patterns of compiled globs, in order.
pub open spec fn glob_patterns(gs: Seq<CompiledGlob>) -> Seq<Seq<char>> {
    Seq::new(gs.len(), |i: int| gs[i].pattern_view())
}

/// `GlobSet::new` over compiled globs (what `GlobSetBuilder::build` runs).
/// The contract claims the outcome `spec_globset_error` names for the
/// globs' patterns, and, as the source's first lines show, an empty set
/// for no globs.
#[verifier::external_body]
fn globset_new(globs: Vec<CompiledGlob>) -> (r: Result<globset::GlobSet, String>)
    ensures
        match spec_globset_error(glob_patterns(globs@)) {
            None => r is Ok,
            Some(e) => r matches Err(m) && m@ == e,
        },
        globs@.len() == 0 ==> r is Ok,
{
    globset::GlobSet::new(globs.iter().map(|g| &g.glob)).map_err(|e| e.to_string())
}

/// `Glob::new(p)`, then whether its matcher matches `t`; `None` when `p`
/// does not compile.
#[verifier::external_body]
fn glob_is_match(p: &str, t: &str) -> (r: Option<bool>)
    ensures
        match spec_glob_error(p@) {
            None => r == Some(spec_glob_is_match(p@, t@)),
            Some(_) => r is None,
        },
{
    globset::Glob::new(p).ok().map(|g| g.compile_matcher().is_match(t))
}

/// One file pattern split into a directory to list (not recursively) and
/// a file-name glob to match in it.
pub struct DiscoveryPattern {
    pub dir: String,
    pub file_name: String,
    /// The file-name glob in use: the file name, or `*` when the file
    /// name does not compile.
    pub file_glob: String,
}

/// The directory of a pattern: its parent, or `.` when it has none.
pub open spec fn spec_pattern_dir(p: Seq<char>) -> Seq<char> {
    match spec_path_parent(p) {
        Some(d) => if d.len() > 0 { d } else { "."@ },
        None => "."@,
    }
}

/// The file-name glob of a pattern, or `*` when it has no file name.
pub open spec fn spec_pattern_name(p: Seq<char>) -> Seq<char> {
    match spec_path_file_name(p) {
        Some(n) => n,
        None => "*"@,
    }
}

/// The glob a file name is matched with: itself, or `*` when it does not
/// compile.
pub open spec fn spec_file_glob(name: Seq<char>) -> Seq<char> {
    if spec_glob_error(name) is None {
        name
    } else {
        "*"@
    }
}

/// Splits a file pattern such as `/var/log/app/*.log`.
pub fn split_pattern(pattern: &str) -> (r: DiscoveryPattern)
    ensures
        r.dir@ == spec_pattern_dir(pattern@),
        r.file_name@ == spec_pattern_name(pattern@),
        r.file_glob@ == spec_file_glob(spec_pattern_name(pattern@)),
{
    let dir = match path_parent(pattern) {
        Some(d) => if d.as_str().is_empty() { ".".to_owned() } else { d },
        None => ".".to_owned(),
    };
    let file_name = match path_file_name(pattern) {
        Some(n) => n,
        None => "*".to_owned(),
    };
    let file_glob = match glob_new(file_name.as_str()) {
        Ok(_) => file_name.clone(),
        Err(_) => "*".to_owned(),
    };
    DiscoveryPattern { dir, file_name, file_glob }
}

/// The first pattern that does not compile, with its error.
pub open spec fn first_glob_error(ps: Seq<Seq<char>>) -> Option<(Seq<char>, Seq<char>)>
    decreases ps.len(),
{
    if ps.len() == 0 {
        None
    } else {
        match spec_glob_error(ps[0]) {
            Some(e) => Some((ps[0], e)),
            None => first_glob_error(ps.drop_first()),
        }
    }
}

/// Compiles the exclude patterns into one set. The first pattern that
/// does not compile is the error; else the set's own outcome.
pub fn build_globset(patterns: &[String]) -> (r: Result<globset::GlobSet, String>)
    ensures
        first_glob_error(names(patterns@)) matches Some((p, e)) ==> r matches Err(m)
            && m@ == "invalid exclude pattern '"@ + p + "': "@ + e,
        first_glob_error(names(patterns@)) is None ==> match spec_globset_error(names(patterns@)) {
            None => r is Ok,
            Some(e) => r matches Err(m) && m@ == e,
        },
        patterns@.len() == 0 ==> r is Ok,
{
    let ghost ps = names(patterns@);
    let mut globs: Vec<CompiledGlob> = Vec::new();
    let mut i: usize = 0;
    assert(ps.skip(0) =~= ps);
    assert(glob_patterns(globs@) =~= ps.take(0));
    while i < patterns.len()
        invariant
            i <= patterns@.len(),
            ps == names(patterns@),
            first_glob_error(ps) == first_glob_error(ps.skip(i as int)),
            globs@.len() == i,
            glob_patterns(globs@) == ps.take(i as int),
        decreases patterns@.len() - i,
    {
        assert(ps.skip(i as int).drop_first() =~= ps.skip(i + 1));
        assert(ps.skip(i as int)[0] == patterns@[i as int]@);
        match glob_new(patterns[i].as_str()) {
            Ok(g) => {
                let ghost before = globs@;
                assert(g.pattern_view() == ps[i as int]);
                globs.push(g);
                assert forall|j: int| 0 <= j < i + 1 implies #[trigger] glob_patterns(globs@)[j] == ps.take(i + 1)[j] by {
                    if j < i {
                        assert(globs@[j] == before[j]);
                        assert(glob_patterns(before)[j] == ps.take(i as int)[j]);
                    }
                }
                assert(glob_patterns(globs@) =~= ps.take(i + 1));
            },
            Err(e) => {
                let mut m = String::new();
                append_str(&mut m, "invalid exclude pattern '");
                append_str(&mut m, patterns[i].as_str());
                append_str(&mut m, "': ");
                append_str(&mut m, e.as_str());
                assert(m@ =~= "invalid exclude pattern '"@ + patterns@[i as int]@ + "': "@ + e@);
                return Err(m);
            },
        }
        i = i + 1;
    }
    assert(ps.skip(i as int).len() == 0);
    assert(ps.take(i as int) =~= ps);
    globset_new(globs)
}

/// Whether a file name matches an include's file glob (one that does not
/// compile matches nothing).
pub open spec fn spec_name_included(g: Seq<char>, name: Seq<char>) -> bool {
    spec_glob_error(g) is None && spec_glob_is_match(g, name)
}

/// Whether a path is matched by one of the exclude patterns that compile.
pub open spec fn spec_excluded(excludes: Seq<Seq<char>>, path: Seq<char>) -> bool {
    exists|i: int| 0 <= i < excludes.len() && spec_glob_error(excludes[i]) is None && spec_glob_is_match(excludes[i], path)
}

/// Whether a listed file is tailed: its name matches the include's file
/// glob and its path matches no exclude pattern.
pub fn file_selected(include_glob: &str, excludes: &Vec<String>, path: &str, name: &str) -> (r: bool)
    ensures
        r == (spec_name_included(include_glob@, name@) && !spec_excluded(names(excludes@), path@)),
{
    match glob_is_match(include_glob, name) {
        Some(true) => {},
        _ => {
            return false;
        },
    }
    let ghost ex = names(excludes@);
    let mut i: usize = 0;
    while i < excludes.len()
        invariant
            i <= excludes@.len(),
            ex == names(excludes@),
            forall|j: int| 0 <= j < i ==> !(spec_glob_error(ex[j]) is None && spec_glob_is_match(ex[j], path@)),
        decreases excludes@.len() - i,
    {
        assert(ex[i as int] == excludes@[i as int]@);
        match glob_is_match(excludes[i].as_str(), path) {
            Some(true) => {
                return false;
            },
            _ => {},
        }
        i = i + 1;
    }
    true
}

} // verus!

verus! {

/// Index of the first newline.
pub open spec fn first_newline(b: Seq<u8>) -> Option<int>
    decreases b.len(),
{
    if b.len() == 0 {
        None
    } else if b[0] == 10u8 {
        Some(0)
    } else {
        match first_newline(b.drop_first()) {
            Some(i) => Some(i + 1),
            None => None,
        }
    }
}

/// A line without its trailing carriage return, if any.
pub open spec fn strip_cr(l: Seq<u8>) -> Seq<u8> {
    if l.len() > 0 && l.last() == 13u8 { l.drop_last() } else { l }
}

/// The complete lines of a buffer (each without its `\n` and a trailing
/// `\r`), and what follows the last newline.
pub open spec fn split_lines(b: Seq<u8>) -> (Seq<Seq<u8>>, Seq<u8>)
    decreases b.len(),
{
    match first_newline(b) {
        None => (Seq::empty(), b),
        Some(k) => if 0 <= k < b.len() {
            let (ls, rest) = split_lines(b.skip(k + 1));
            (seq![strip_cr(b.take(k))] + ls, rest)
        } else {
            (Seq::empty(), b)
        },
    }
}

proof fn lemma_first_newline_none(b: Seq<u8>)
    ensures
        first_newline(b) is None ==> forall|j: int| 0 <= j < b.len() ==> b[j] != 10u8,
        first_newline(b) matches Some(k) ==> 0 <= k < b.len() && b[k] == 10u8 && forall|j: int| 0 <= j < k ==> b[j] != 10u8,
    decreases b.len(),
{
    if b.len() > 0 {
        lemma_first_newline_none(b.drop_first());
        assert forall|j: int| 1 <= j < b.len() implies b[j] == b.drop_first()[j - 1] by {}
    }
}

/// The number of newlines in a buffer.
pub open spec fn newline_count(b: Seq<u8>) -> nat
    decreases b.len(),
{
    if b.len() == 0 {
        0
    } else {
        (if b[0] == 10u8 { 1nat } else { 0nat }) + newline_count(b.drop_first())
    }
}

proof fn lemma_newline_count_split(b: Seq<u8>, k: int)
    requires
        0 <= k < b.len(),
        b[k] == 10u8,
        forall|j: int| 0 <= j < k ==> b[j] != 10u8,
    ensures
        newline_count(b) == 1 + newline_count(b.skip(k + 1)),
    decreases k,
{
    if k == 0 {
        assert(b.drop_first() =~= b.skip(1));
    } else {
        let d = b.drop_first();
        assert forall|j: int| 0 <= j < k - 1 implies d[j] != 10u8 by {
            assert(d[j] == b[j + 1]);
        }
        lemma_newline_count_split(d, k - 1);
        assert(d.skip(k) =~= b.skip(k + 1));
    }
}

proof fn lemma_newline_count_none(b: Seq<u8>)
    requires
        forall|j: int| 0 <= j < b.len() ==> b[j] != 10u8,
    ensures
        newline_count(b) == 0,
    decreases b.len(),
{
    if b.len() > 0 {
        let d = b.drop_first();
        assert forall|j: int| 0 <= j < d.len() implies d[j] != 10u8 by {
            assert(d[j] == b[j + 1]);
        }
        lemma_newline_count_none(d);
    }
}

/// Law: what is held back after the last newline holds no newline, and
/// neither does any complete line: every newline of the buffer ends
/// exactly one line, so there are as many lines as newlines.
pub proof fn law_split_lines_newlines(b: Seq<u8>)
    ensures
        forall|j: int| 0 <= j < split_lines(b).1.len() ==> split_lines(b).1[j] != 10u8,
        forall|i: int, j: int| 0 <= i < split_lines(b).0.len() && 0 <= j < split_lines(b).0[i].len()
            ==> split_lines(b).0[i][j] != 10u8,
        split_lines(b).0.len() == newline_count(b),
    decreases b.len(),
{
    lemma_first_newline_none(b);
    match first_newline(b) {
        None => {
            lemma_newline_count_none(b);
        },
        Some(k) => {
            lemma_newline_count_split(b, k);
            law_split_lines_newlines(b.skip(k + 1));
            let (ls, rest) = split_lines(b.skip(k + 1));
            let first = strip_cr(b.take(k));
            assert forall|j: int| 0 <= j < first.len() implies first[j] != 10u8 by {
                assert(first[j] == b[j]);
            }
            let all = seq![first] + ls;
            assert forall|i: int, j: int| 0 <= i < all.len() && 0 <= j < all[i].len() implies all[i][j] != 10u8 by {
                if i > 0 {
                    assert(all[i] == ls[i - 1]);
                }
            }
        },
    }
}

proof fn lemma_first_newline(b: Seq<u8>, i: int)
    requires
        0 <= i <= b.len(),
        forall|j: int| 0 <= j < i ==> b[j] != 10u8,
    ensures
        i < b.len() && b[i] == 10u8 ==> first_newline(b) == Some(i),
        i == b.len() ==> first_newline(b) is None,
    decreases i,
{
    if i > 0 {
        lemma_first_newline(b.drop_first(), i - 1);
    }
}

/// Splits a buffer into its complete lines and the trailing partial line.
pub fn split_complete_lines(buf: &Vec<u8>) -> (r: (Vec<Vec<u8>>, Vec<u8>))
    ensures
        Seq::new(r.0@.len(), |i: int| r.0@[i]@) == split_lines(buf@).0,
        r.1@ == split_lines(buf@).1,
{
    let ghost b = buf@;
    let mut lines: Vec<Vec<u8>> = Vec::new();
    let mut consumed: usize = 0;
    assert(b.skip(0) =~= b);
    loop
        invariant
            consumed <= buf@.len(),
            b == buf@,
            split_lines(b).0 == Seq::new(lines@.len(), |i: int| lines@[i]@) + split_lines(b.skip(consumed as int)).0,
            split_lines(b).1 == split_lines(b.skip(consumed as int)).1,
        decreases buf@.len() - consumed,
    {
        let ghost rest = b.skip(consumed as int);
        let mut k: usize = consumed;
        while k < buf.len() && buf[k] != 10u8
            invariant
                consumed <= k <= buf@.len(),
                b == buf@,
                forall|j: int| consumed <= j < k ==> b[j] != 10u8,
            decreases buf@.len() - k,
        {
            k = k + 1;
        }
        proof {
            assert forall|j: int| 0 <= j < k - consumed implies rest[j] != 10u8 by {
                assert(rest[j] == b[consumed + j]);
            }
            lemma_first_newline(rest, k - consumed);
        }
        if k == buf.len() {
            let mut tail: Vec<u8> = Vec::new();
            let mut j: usize = consumed;
            while j < buf.len()
                invariant
                    consumed <= j <= buf@.len(),
                    b == buf@,
                    tail@ == b.subrange(consumed as int, j as int),
                decreases buf@.len() - j,
            {
                tail.push(buf[j]);
                j = j + 1;
                assert(tail@ =~= b.subrange(consumed as int, j as int));
            }
            assert(tail@ =~= rest);
            assert(Seq::new(lines@.len(), |i: int| lines@[i]@) + Seq::<Seq<u8>>::empty() =~= Seq::new(lines@.len(), |i: int| lines@[i]@));
            return (lines, tail);
        }
        let mut line: Vec<u8> = Vec::new();
        let mut j: usize = consumed;
        while j < k
            invariant
                consumed <= j <= k < buf@.len(),
                b == buf@,
                line@ == b.subrange(consumed as int, j as int),
            decreases k - j,
        {
            line.push(buf[j]);
            j = j + 1;
            assert(line@ =~= b.subrange(consumed as int, j as int));
        }
        assert(line@ =~= rest.take(k - consumed));
        if line.len() > 0 && line[line.len() - 1] == 13u8 {
            let _ = line.pop();
        }
        let ghost before = lines@;
        lines.push(line);
        assert(rest.skip(k - consumed + 1) =~= b.skip(k + 1));
        assert(Seq::new(lines@.len(), |i: int| lines@[i]@) =~= Seq::new(before.len(), |i: int| before[i]@).push(strip_cr(rest.take(k - consumed))));
        consumed = k + 1;
    }
}

/// The offset tailing starts from for a newly seen file: the saved one,
/// else the start (0) or the current end of the file.
pub open spec fn spec_start_offset(saved: Option<u64>, start_at: StartAt, file_len: u64) -> u64 {
    match saved {
        Some(o) => o,
        None => match start_at {
            StartAt::Beginning => 0,
            StartAt::End => file_len,
        },
    }
}

pub fn start_offset(saved: Option<u64>, start_at: StartAt, file_len: u64) -> (r: u64)
    ensures
        r == spec_start_offset(saved, start_at, file_len),
{
    match saved {
        Some(o) => o,
        None => match start_at {
            StartAt::Beginning => 0,
            StartAt::End => file_len,
        },
    }
}

/// Where tailing of one file stands.
pub struct TailState {
    pub path: String,
    /// Bytes read so far (complete lines and the partial line); the saved
    /// checkpoint offset.
    pub offset: u64,
    /// Bytes after the last complete line, waiting for the rest of it.
    pub partial: Vec<u8>,
}

impl TailState {
    pub fn new(path: &str, offset: u64) -> (r: TailState)
        ensures
            r.path@ == path@,
            r.offset == offset,
            r.partial@.len() == 0,
    {
        TailState { path: path.to_owned(), offset, partial: Vec::new() }
    }

    /// The file was found again at `path` with `file_len` bytes: the path
    /// is updated, and a file that shrank below the offset (truncated in
    /// place) is read again from the start.
    pub fn observe(&mut self, path: &str, file_len: u64)
        ensures
            final(self).path@ == path@,
            file_len < old(self).offset ==> final(self).offset == 0 && final(self).partial@.len() == 0,
            file_len >= old(self).offset ==> final(self).offset == old(self).offset && final(self).partial@ == old(self).partial@,
    {
        self.path = path.to_owned();
        if file_len < self.offset {
            self.offset = 0;
            self.partial.clear();
        }
    }

    /// Takes bytes read from the offset: they join the partial line, the
    /// offset advances past them, and the complete lines are handed back;
    /// what follows the last newline stays partial.
    pub fn consume(&mut self, new_bytes: &[u8]) -> (r: Vec<Vec<u8>>)
        requires
            old(self).offset + new_bytes@.len() <= u64::MAX,
        ensures
            final(self).path == old(self).path,
            final(self).offset == old(self).offset + new_bytes@.len(),
            Seq::new(r@.len(), |i: int| r@[i]@) == split_lines(old(self).partial@ + new_bytes@).0,
            final(self).partial@ == split_lines(old(self).partial@ + new_bytes@).1,
    {
        let mut buf = Vec::new();
        std::mem::swap(&mut buf, &mut self.partial);
        let ghost b0 = buf@;
        let mut i: usize = 0;
        while i < new_bytes.len()
            invariant
                i <= new_bytes@.len(),
                buf@ == b0 + new_bytes@.take(i as int),
            decreases new_bytes@.len() - i,
        {
            buf.push(new_bytes[i]);
            i = i + 1;
            assert(buf@ =~= b0 + new_bytes@.take(i as int));
        }
        assert(new_bytes@.take(i as int) =~= new_bytes@);
        self.offset = self.offset + new_bytes.len() as u64;
        let (lines, rest) = split_complete_lines(&buf);
        self.partial = rest;
        lines
    }
}

/// The tail states of the files being followed, one per identity.
pub struct Tailer {
    pub states: Vec<(FileIdentity, TailState)>,
}

pub open spec fn tail_ids(s: Seq<(FileIdentity, TailState)>) -> Seq<FileIdentity> {
    Seq::new(s.len(), |i: int| s[i].0)
}

/// What the tailer keeps for a file: its path, offset and partial line.
pub type TailModel = (Seq<char>, u64, Seq<u8>);

pub open spec fn tail_model(st: TailState) -> TailModel {
    (st.path@, st.offset, st.partial@)
}

/// Position of the first occurrence of an identity.
pub open spec fn first_pos(s: Seq<FileIdentity>, x: FileIdentity) -> Option<int>
    decreases s.len(),
{
    if s.len() == 0 {
        None
    } else if s[0] == x {
        Some(0)
    } else {
        match first_pos(s.drop_first(), x) {
            Some(i) => Some(i + 1),
            None => None,
        }
    }
}

/// What is kept for an identity, if it is followed.
pub open spec fn tail_get(s: Seq<(FileIdentity, TailState)>, x: FileIdentity) -> Option<TailModel> {
    match first_pos(tail_ids(s), x) {
        Some(i) => Some(tail_model(s[i].1)),
        None => None,
    }
}

/// No identity is followed twice.
pub open spec fn unique_tails(s: Seq<(FileIdentity, TailState)>) -> bool {
    forall|i: int, j: int| 0 <= i < j < s.len() ==> s[i].0 != s[j].0
}

/// A file as it stands once found on a poll: its kept state, or, when it
/// is new, its start offset and no partial line; then its path updated,
/// and restarted at 0 when the file is now shorter than the offset.
pub open spec fn observed_model(prev: Option<TailModel>, path: Seq<char>, file_len: u64, start_at: StartAt, saved: Option<u64>) -> TailModel {
    let (off, partial) = match prev {
        Some(m) => (m.1, m.2),
        None => (spec_start_offset(saved, start_at, file_len), Seq::<u8>::empty()),
    };
    if file_len < off {
        (path, 0, Seq::empty())
    } else {
        (path, off, partial)
    }
}

/// The views of a list of lines.
pub open spec fn line_views(v: Seq<Vec<u8>>) -> Seq<Seq<u8>> {
    Seq::new(v.len(), |i: int| v[i]@)
}

proof fn lemma_first_pos(s: Seq<FileIdentity>, x: FileIdentity, i: int)
    requires
        0 <= i <= s.len(),
        forall|j: int| 0 <= j < i ==> s[j] != x,
    ensures
        i < s.len() && s[i] == x ==> first_pos(s, x) == Some(i),
        i == s.len() ==> first_pos(s, x) is None,
    decreases i,
{
    if i > 0 {
        lemma_first_pos(s.drop_first(), x, i - 1);
    }
}

proof fn lemma_first_pos_bounds(s: Seq<FileIdentity>, x: FileIdentity)
    ensures
        first_pos(s, x) matches Some(i) ==> 0 <= i < s.len() && s[i] == x && forall|j: int| 0 <= j < i ==> s[j] != x,
        first_pos(s, x) is None ==> forall|j: int| 0 <= j < s.len() ==> s[j] != x,
    decreases s.len(),
{
    if s.len() > 0 {
        lemma_first_pos_bounds(s.drop_first(), x);
        assert forall|j: int| 1 <= j < s.len() implies s[j] == s.drop_first()[j - 1] by {}
    }
}

/// Replacing the state at a position changes what that identity reads
/// and nothing else.
proof fn lemma_tail_update(s: Seq<(FileIdentity, TailState)>, i: int, st: TailState, x: FileIdentity)
    requires
        0 <= i < s.len(),
        unique_tails(s),
    ensures
        unique_tails(s.update(i, (s[i].0, st))),
        tail_ids(s.update(i, (s[i].0, st))) == tail_ids(s),
        tail_get(s.update(i, (s[i].0, st)), x) == (if x == s[i].0 { Some(tail_model(st)) } else { tail_get(s, x) }),
{
    let u = s.update(i, (s[i].0, st));
    assert(tail_ids(u) =~= tail_ids(s));
    lemma_first_pos_bounds(tail_ids(s), x);
    if x == s[i].0 {
        assert forall|j: int| 0 <= j < i implies tail_ids(s)[j] != x by {}
        lemma_first_pos(tail_ids(s), x, i);
    }
}

/// Following a new identity at the end changes what it reads and nothing
/// else.
proof fn lemma_tail_push(s: Seq<(FileIdentity, TailState)>, id: FileIdentity, st: TailState, x: FileIdentity)
    requires
        unique_tails(s),
        !tail_ids(s).contains(id),
    ensures
        unique_tails(s.push((id, st))),
        tail_ids(s.push((id, st))) == tail_ids(s).push(id),
        tail_get(s.push((id, st)), x) == (if x == id { Some(tail_model(st)) } else { tail_get(s, x) }),
{
    let u = s.push((id, st));
    let ids = tail_ids(s);
    assert(tail_ids(u) =~= ids.push(id));
    assert forall|a: int, b: int| 0 <= a < b < u.len() implies u[a].0 != u[b].0 by {
        if b == s.len() {
            assert(ids[a] == s[a].0);
        }
    }
    lemma_first_pos_bounds(ids, x);
    if x == id {
        assert forall|j: int| 0 <= j < ids.len() implies tail_ids(u)[j] != x by {
            assert(tail_ids(u)[j] == ids[j]);
        }
        lemma_first_pos(tail_ids(u), x, ids.len() as int);
    } else {
        match first_pos(ids, x) {
            Some(k) => {
                assert forall|j: int| 0 <= j < k implies tail_ids(u)[j] != x by {
                    assert(tail_ids(u)[j] == ids[j]);
                }
                assert(tail_ids(u)[k] == ids[k]);
                lemma_first_pos(tail_ids(u), x, k);
            },
            None => {
                assert forall|j: int| 0 <= j < tail_ids(u).len() implies tail_ids(u)[j] != x by {
                    if j < ids.len() {
                        assert(tail_ids(u)[j] == ids[j]);
                    }
                }
                lemma_first_pos(tail_ids(u), x, tail_ids(u).len() as int);
            },
        }
    }
}

/// A list made of entries of another, both without repeats, reads each of
/// its identities as the other does.
proof fn lemma_tail_get_sub(s: Seq<(FileIdentity, TailState)>, t: Seq<(FileIdentity, TailState)>, x: FileIdentity)
    requires
        unique_tails(s),
        unique_tails(t),
        forall|a: int| 0 <= a < t.len() ==> exists|k: int| 0 <= k < s.len() && #[trigger] t[a] == s[k],
        tail_ids(t).contains(x),
    ensures
        tail_get(t, x) == tail_get(s, x),
{
    lemma_first_pos_bounds(tail_ids(t), x);
    let c = choose|c: int| 0 <= c < tail_ids(t).len() && tail_ids(t)[c] == x;
    assert(t[c].0 == x);
    let p = first_pos(tail_ids(t), x)->0;
    assert(t[p].0 == tail_ids(t)[p]);
    let k = choose|k: int| 0 <= k < s.len() && t[p] == s[k];
    assert forall|j: int| 0 <= j < k implies tail_ids(s)[j] != x by {
        assert(tail_ids(s)[j] == s[j].0);
    }
    assert(tail_ids(s)[k] == s[k].0);
    lemma_first_pos(tail_ids(s), x, k);
}

impl Tailer {
    /// No identity is followed twice.
    pub open spec fn wf(&self) -> bool {
        unique_tails(self.states@)
    }

    pub fn new() -> (r: Tailer)
        ensures
            r.states@.len() == 0,
            r.wf(),
    {
        Tailer { states: Vec::new() }
    }

    /// Position of an identity's state.
    pub fn find(&self, id: FileIdentity) -> (r: Option<usize>)
        ensures
            r matches Some(i) ==> i < self.states@.len() && self.states@[i as int].0 == id
                && first_pos(tail_ids(self.states@), id) == Some(i as int),
            r is None ==> !tail_ids(self.states@).contains(id) && first_pos(tail_ids(self.states@), id) is None,
    {
        let mut i: usize = 0;
        while i < self.states.len()
            invariant
                i <= self.states@.len(),
                forall|j: int| 0 <= j < i ==> self.states@[j].0 != id,
            decreases self.states@.len() - i,
        {
            if self.states[i].0 == id {
                proof {
                    lemma_first_pos(tail_ids(self.states@), id, i as int);
                }
                return Some(i);
            }
            i = i + 1;
        }
        assert forall|j: int| 0 <= j < tail_ids(self.states@).len() implies tail_ids(self.states@)[j] != id by {}
        proof {
            lemma_first_pos(tail_ids(self.states@), id, i as int);
        }
        None
    }

    /// Whether an identity is followed.
    pub fn contains(&self, id: FileIdentity) -> (r: bool)
        ensures
            r == tail_ids(self.states@).contains(id),
    {
        match self.find(id) {
            Some(i) => {
                assert(tail_ids(self.states@)[i as int] == id);
                true
            },
            None => false,
        }
    }

    /// A file found on this poll: a new identity starts at `saved` (its
    /// checkpoint) or per `start_at` and is followed from now on; then its
    /// path is updated and a truncation restarts it at 0. Gives the offset
    /// to read from.
    pub fn observe(&mut self, id: FileIdentity, path: &str, file_len: u64, start_at: StartAt, saved: Option<u64>) -> (r: u64)
        requires
            old(self).wf(),
        ensures
            final(self).wf(),
            tail_ids(final(self).states@) == (if tail_ids(old(self).states@).contains(id) {
                tail_ids(old(self).states@)
            } else {
                tail_ids(old(self).states@).push(id)
            }),
            tail_get(final(self).states@, id) == Some(observed_model(tail_get(old(self).states@, id), path@, file_len, start_at, saved)),
            r == observed_model(tail_get(old(self).states@, id), path@, file_len, start_at, saved).1,
            forall|x: FileIdentity| x != id ==> tail_get(final(self).states@, x) == tail_get(old(self).states@, x),
    {
        let ghost s0 = self.states@;
        let ghost mut added: Option<TailState> = None;
        let i = match self.find(id) {
            Some(i) => {
                assert(tail_ids(self.states@)[i as int] == id);
                i
            },
            None => {
                let off = start_offset(saved, start_at, file_len);
                let st = TailState::new(path, off);
                proof {
                    added = Some(st);
                }
                self.states.push((id, st));
                self.states.len() - 1
            },
        };
        let ghost s1 = self.states@;
        proof {
            if !tail_ids(s0).contains(id) {
                assert(s1 == s0.push((id, added->0)));
                lemma_tail_push(s0, id, added->0, id);
            }
        }
        let (sid, mut st) = self.states.remove(i);
        st.observe(path, file_len);
        let off = st.offset;
        self.states.insert(i, (sid, st));
        assert(self.states@ =~= s1.update(i as int, (s1[i as int].0, st)));
        proof {
            lemma_tail_update(s1, i as int, st, id);
            assert forall|x: FileIdentity| x != id implies tail_get(self.states@, x) == tail_get(s0, x) by {
                lemma_tail_update(s1, i as int, st, x);
                if !tail_ids(s0).contains(id) {
                    lemma_tail_push(s0, id, added->0, x);
                }
            }
        }
        off
    }

    /// Bytes read for a followed file: the complete lines they finish.
    /// Bytes for a file that is not followed are ignored.
    pub fn consume(&mut self, id: FileIdentity, new_bytes: &[u8]) -> (r: Vec<Vec<u8>>)
        requires
            old(self).wf(),
            tail_get(old(self).states@, id) matches Some(m) ==> m.1 + new_bytes@.len() <= u64::MAX,
        ensures
            final(self).wf(),
            tail_ids(final(self).states@) == tail_ids(old(self).states@),
            match tail_get(old(self).states@, id) {
                Some(m) => line_views(r@) == split_lines(m.2 + new_bytes@).0 && tail_get(final(self).states@, id) == Some(
                    (m.0, (m.1 + new_bytes@.len()) as u64, split_lines(m.2 + new_bytes@).1),
                ),
                None => r@.len() == 0 && final(self).states@ == old(self).states@,
            },
            forall|x: FileIdentity| x != id ==> tail_get(final(self).states@, x) == tail_get(old(self).states@, x),
    {
        match self.find(id) {
            None => {
                let v: Vec<Vec<u8>> = Vec::new();
                v
            },
            Some(i) => {
                let ghost before = self.states@;
                let (sid, mut st) = self.states.remove(i);
                let lines = st.consume(new_bytes);
                self.states.insert(i, (sid, st));
                assert(self.states@ =~= before.update(i as int, (before[i as int].0, st)));
                proof {
                    lemma_tail_update(before, i as int, st, id);
                    assert forall|x: FileIdentity| x != id implies tail_get(self.states@, x) == tail_get(before, x) by {
                        lemma_tail_update(before, i as int, st, x);
                    }
                }
                assert(line_views(lines@) =~= Seq::new(lines@.len(), |k: int| lines@[k]@));
                lines
            },
        }
    }

    /// The state of a followed file.
    pub fn state(&self, id: FileIdentity) -> (r: Option<&TailState>)
        ensures
            match tail_get(self.states@, id) {
                Some(m) => r matches Some(st) && tail_model(*st) == m,
                None => r is None,
            },
    {
        match self.find(id) {
            Some(i) => Some(&self.states[i].1),
            None => None,
        }
    }

    /// Drops identities that were not seen on this poll and whose path now
    /// holds no file (`None`) or another file. `current` gives, for the
    /// unseen identities, what identity their path has now.
    pub fn evict(&mut self, seen: &Vec<FileIdentity>, current: &Vec<(FileIdentity, Option<FileIdentity>)>)
        requires
            old(self).wf(),
        ensures
            final(self).wf(),
            forall|x: FileIdentity|
                #![trigger tail_ids(final(self).states@).contains(x)]
                #![trigger tail_ids(old(self).states@).contains(x)]
                tail_ids(final(self).states@).contains(x) <==> (tail_ids(old(self).states@).contains(x)
                && !is_stale(x, seen@, current@)),
            forall|x: FileIdentity| #[trigger] tail_ids(final(self).states@).contains(x)
                ==> tail_get(final(self).states@, x) == tail_get(old(self).states@, x),
    {
        let mut old_states: Vec<(FileIdentity, TailState)> = Vec::new();
        std::mem::swap(&mut old_states, &mut self.states);
        let ghost os = old_states@;
        assert(os.len() == old_states.len());
        let mut kept: Vec<(FileIdentity, TailState)> = Vec::new();
        let mut i: usize = 0;
        while old_states.len() > 0
            invariant
                i + old_states@.len() == os.len(),
                os.len() <= usize::MAX,
                old_states@ == os.skip(i as int),
                forall|a: int, b: int| 0 <= a < b < os.len() ==> os[a].0 != os[b].0,
                forall|a: int, b: int| 0 <= a < b < kept@.len() ==> kept@[a].0 != kept@[b].0,
                forall|x: FileIdentity| tail_ids(kept@).contains(x) <==> (tail_ids(os.take(i as int)).contains(x)
                    && !is_stale(x, seen@, current@)),
                forall|a: int| 0 <= a < kept@.len() ==> exists|k: int| 0 <= k < i && #[trigger] kept@[a] == os[k],
            decreases old_states@.len(),
        {
            let (id, st) = old_states.remove(0);
            assert(os.skip(i as int)[0] == os[i as int]);
            assert(old_states@ =~= os.skip(i + 1));
            let stale = is_stale_exec(id, seen, current);
            let ghost before = kept@;
            if !stale {
                kept.push((id, st));
                assert(tail_ids(kept@) =~= tail_ids(before).push(id));
                assert(kept@[before.len() as int] == os[i as int]);
            } else {
                assert(tail_ids(kept@) =~= tail_ids(before));
            }
            proof {
                assert(tail_ids(os.take(i + 1)) =~= tail_ids(os.take(i as int)).push(id));
                assert forall|x: FileIdentity| tail_ids(kept@).contains(x) <==> (tail_ids(os.take(i + 1)).contains(x)
                    && !is_stale(x, seen@, current@)) by {
                    lemma_contains_push(tail_ids(os.take(i as int)), id, x);
                    lemma_contains_push(tail_ids(before), id, x);
                    if x == id && tail_ids(os.take(i as int)).contains(x) {
                        let k = choose|k: int| 0 <= k < tail_ids(os.take(i as int)).len() && tail_ids(os.take(i as int))[k] == x;
                        assert(os[k].0 == os[i as int].0);
                    }
                }
                assert forall|a: int| 0 <= a < before.len() implies before[a].0 != id by {
                    let t = tail_ids(os.take(i as int));
                    assert(tail_ids(before).contains(before[a].0)) by {
                        assert(tail_ids(before)[a] == before[a].0);
                    }
                    let k = choose|k: int| 0 <= k < t.len() && t[k] == before[a].0;
                    assert(os[k].0 == before[a].0);
                }
            }
            i = i + 1;
        }
        assert(os.take(i as int) =~= os);
        self.states = kept;
        proof {
            assert forall|x: FileIdentity| #[trigger] tail_ids(self.states@).contains(x)
                implies tail_get(self.states@, x) == tail_get(os, x) by {
                lemma_tail_get_sub(os, self.states@, x);
            }
        }
    }
}

/// The end of a poll: drops the identities that rotated away (unseen,
/// with their path now holding no file or another file), then keeps a
/// checkpoint only for the identities still followed.
pub fn finish_poll(
    tailer: &mut Tailer,
    checkpoint: &mut CheckpointStore,
    seen: &Vec<FileIdentity>,
    current: &Vec<(FileIdentity, Option<FileIdentity>)>,
)
    requires
        old(tailer).wf(),
        old(checkpoint).wf(),
    ensures
        final(tailer).wf(),
        final(checkpoint).wf(),
        final(checkpoint).path == old(checkpoint).path,
        forall|x: FileIdentity| #[trigger] tail_ids(final(tailer).states@).contains(x) <==> (tail_ids(old(tailer).states@).contains(x)
            && !is_stale(x, seen@, current@)),
        forall|x: FileIdentity| #[trigger] tail_ids(final(tailer).states@).contains(x)
            ==> tail_get(final(tailer).states@, x) == tail_get(old(tailer).states@, x),
        forall|x: FileIdentity| #[trigger] final(checkpoint).spec_get(x) is Some
            ==> tail_ids(final(tailer).states@).contains(x),
        forall|x: FileIdentity| tail_ids(final(tailer).states@).contains(x)
            ==> #[trigger] final(checkpoint).spec_get(x) == old(checkpoint).spec_get(x),
        forall|x: FileIdentity| is_stale(x, seen@, current@) ==> #[trigger] final(checkpoint).spec_get(x) is None,
{
    tailer.evict(seen, current);
    let t: &Tailer = tailer;
    let keep = |id: FileIdentity| -> (r: bool)
        ensures
            r == tail_ids(t.states@).contains(id),
        { t.contains(id) };
    let ghost before = crate::checkpoint::entries_model(checkpoint.data.entries@);
    checkpoint.retain(keep);
    proof {
        let after = crate::checkpoint::entries_model(checkpoint.data.entries@);
        assert forall|x: FileIdentity| #[trigger] checkpoint.spec_get(x) is Some implies tail_ids(t.states@).contains(x) by {
            crate::checkpoint::law_retain_get(before, after, keep, x);
        }
        assert forall|x: FileIdentity| tail_ids(t.states@).contains(x) implies #[trigger] checkpoint.spec_get(x) == old(checkpoint).spec_get(x) by {
            crate::checkpoint::law_retain_get(before, after, keep, x);
        }
        assert forall|x: FileIdentity| is_stale(x, seen@, current@) implies #[trigger] checkpoint.spec_get(x) is None by {
            crate::checkpoint::law_retain_get(before, after, keep, x);
        }
    }
}

proof fn lemma_contains_push<A>(s: Seq<A>, a: A, x: A)
    ensures
        s.push(a).contains(x) <==> (s.contains(x) || x == a),
{
    if s.contains(x) {
        let k = choose|k: int| 0 <= k < s.len() && s[k] == x;
        assert(s.push(a)[k] == x);
    }
    if x == a {
        assert(s.push(a)[s.len() as int] == x);
    }
    if s.push(a).contains(x) && x != a {
        let k = choose|k: int| 0 <= k < s.push(a).len() && s.push(a)[k] == x;
        assert(s[k] == x);
    }
}

/// An unseen identity whose path now holds no file or another file.
pub open spec fn is_stale(id: FileIdentity, seen: Seq<FileIdentity>, current: Seq<(FileIdentity, Option<FileIdentity>)>) -> bool {
    &&& !seen.contains(id)
    &&& match current_of(id, current) {
        Some(now) => now != Some(id),
        None => false,
    }
}

/// The first reading given for an identity's path.
pub open spec fn current_of(id: FileIdentity, current: Seq<(FileIdentity, Option<FileIdentity>)>) -> Option<Option<FileIdentity>>
    decreases current.len(),
{
    if current.len() == 0 {
        None
    } else if current[0].0 == id {
        Some(current[0].1)
    } else {
        current_of(id, current.drop_first())
    }
}

#[verifier::loop_isolation(false)]
fn is_stale_exec(id: FileIdentity, seen: &Vec<FileIdentity>, current: &Vec<(FileIdentity, Option<FileIdentity>)>) -> (r: bool)
    ensures
        r == is_stale(id, seen@, current@),
{
    let mut i: usize = 0;
    while i < seen.len()
        invariant
            i <= seen@.len(),
            forall|j: int| 0 <= j < i ==> seen@[j] != id,
        decreases seen@.len() - i,
    {
        if seen[i] == id {
            assert(seen@.contains(id)) by {
                assert(seen@[i as int] == id);
            }
            return false;
        }
        i = i + 1;
    }
    let mut k: usize = 0;
    assert(current@.skip(0) =~= current@);
    while k < current.len()
        invariant
            k <= current@.len(),
            current_of(id, current@) == current_of(id, current@.skip(k as int)),
        decreases current@.len() - k,
    {
        assert(current@.skip(k as int).drop_first() =~= current@.skip(k + 1));
        if current[k].0 == id {
            return match current[k].1 {
                Some(now) => now != id,
                None => true,
            };
        }
        k = k + 1;
    }
    false
}

/// The event for one line of a tailed file: the line as raw bytes, with
/// the file's path and the receiver's name as resource entries.
pub fn line_event(line: Vec<u8>, path: &str, receiver: &str) -> (e: Event)
    ensures
        e.raw@ == line@,
        e.body@ == JVal::Str(crate::event::spec_utf8_lossy(line@)),
        e.timestamp == e.observed_timestamp,
        e.attributes@.len() == 0,
        obj_model(e.resource@) == crate::json::obj_insert(
            crate::json::obj_insert(Seq::empty(), "file.path"@, JVal::Str(path@)),
            "receiver"@,
            JVal::Str(receiver@),
        ),
        e.severity is None,
        e.meta.errors@.len() == 0,
        !e.meta.dead_letter,
{
    let mut event = Event::new(line);
    assert(obj_model(event.resource@) =~= Seq::<(Seq<char>, JVal)>::empty());
    map_insert(&mut event.resource, "file.path".to_owned(), JsonValue::Str(path.to_owned()));
    map_insert(&mut event.resource, "receiver".to_owned(), JsonValue::Str(receiver.to_owned()));
    event
}

/// A file receiver: its name and settings.
pub struct FileLogReceiver {
    pub name: String,
    pub config: FileLogConfig,
}

impl FileLogReceiver {
    pub fn new(name: &str, config: FileLogConfig) -> (r: FileLogReceiver)
        ensures
            r.name@ == name@,
            r.config == config,
    {
        FileLogReceiver { name: name.to_owned(), config }
    }

    pub fn name(&self) -> (r: &str)
        ensures
            r@ == self.name@,
    {
        self.name.as_str()
    }
}

} // verus!
