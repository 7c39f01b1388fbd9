//! Collector configuration: durations, `${VAR}` expansion, the top-level
//! config shape and its cross-reference validation.

use vstd::prelude::*;
use crate::text::{
    all_digits, append_str, chars_of, first_index_of, is_digit, parse_u64_chars, push_char,
    slice_to_vec, spec_parse_u64, string_from_chars, trim, trim_chars,
};
use crate::json::{obj_model, JsonMap, JsonValue, JVal, JObj};

verus! {

/// Failures of loading or validating a config.
#[derive(Debug)]
pub enum ConfigError {
    Io(String, String),
    Parse(String),
    UndefinedEnvVar(String),
    UnknownComponent { pipeline: String, kind: &'static str, name: String },
    EmptyPipelineReceivers(String),
    EmptyPipelineExporters(String),
}

/// Length of the leading run of ASCII digits.
pub open spec fn digit_run(s: Seq<char>) -> nat
    decreases s.len(),
{
    if s.len() > 0 && is_digit(s[0]) {
        1 + digit_run(s.drop_first())
    } else {
        0
    }
}

/// Milliseconds per unit of a duration suffix.
pub open spec fn unit_multiplier(u: Seq<char>) -> Option<nat> {
    if u == Seq::<char>::empty() || u == seq!['s'] {
        Some(1000)
    } else if u == seq!['m', 's'] {
        Some(1)
    } else if u == seq!['m'] {
        Some(60000)
    } else if u == seq!['h'] {
        Some(3600000)
    } else {
        None
    }
}

/// A duration in milliseconds: "500ms", "2s", "1m", "1h", or a bare
/// number of seconds, surrounding whitespace ignored.
pub open spec fn spec_parse_duration(s: Seq<char>) -> Result<nat, Seq<char>> {
    let t = trim(s);
    let k = digit_run(t) as int;
    let num = t.take(k);
    let unit = t.skip(k);
    match spec_parse_u64(num) {
        None => Err(seq!['\''] + t + "' does not start with a number"@),
        Some(n) => match unit_multiplier(unit) {
            Some(m) => Ok(n as nat * m),
            None => Err("unknown duration unit '"@ + unit + seq!['\'']),
        },
    }
}

/// The duration's millisecond count fits in a `u64`.
pub open spec fn duration_fits(s: Seq<char>) -> bool {
    spec_parse_duration(s) matches Ok(v) ==> v <= u64::MAX
}

proof fn lemma_digit_run(s: Seq<char>, i: int)
    requires
        0 <= i <= s.len(),
        forall|j: int| 0 <= j < i ==> is_digit(s[j]),
        i == s.len() || !is_digit(s[i]),
    ensures
        digit_run(s) == i,
    decreases i,
{
    if i > 0 {
        lemma_digit_run(s.drop_first(), i - 1);
    }
}

fn unit_multiplier_exec(u: &Vec<char>) -> (r: Option<u64>)
    ensures
        r matches Some(m) ==> unit_multiplier(u@) == Some(m as nat),
        r is None ==> unit_multiplier(u@) is None,
{
    if u.len() == 0 {
        assert(u@ =~= Seq::<char>::empty());
        Some(1000)
    } else if u.len() == 1 && u[0] == 's' {
        assert(u@ =~= seq!['s']);
        Some(1000)
    } else if u.len() == 2 && u[0] == 'm' && u[1] == 's' {
        assert(u@ =~= seq!['m', 's']);
        Some(1)
    } else if u.len() == 1 && u[0] == 'm' {
        assert(u@ =~= seq!['m']);
        Some(60000)
    } else if u.len() == 1 && u[0] == 'h' {
        assert(u@ =~= seq!['h']);
        Some(3600000)
    } else {
        assert(u@ != Seq::<char>::empty());
        assert(u@ != seq!['s']);
        assert(u@ != seq!['m', 's']);
        assert(u@ != seq!['m']);
        assert(u@ != seq!['h']);
        None
    }
}

/// The number and the unit's multiplier of a duration, or its error.
fn duration_parts(s: &str) -> (r: Result<(u64, u64), String>)
    ensures
        match spec_parse_duration(s@) {
            Ok(v) => r matches Ok((n, m)) && n as nat * m as nat == v,
            Err(e) => r matches Err(x) && x@ == e,
        },
{
    let all = chars_of(s);
    let t = trim_chars(&all);
    let mut k: usize = 0;
    while k < t.len() && t[k] >= '0' && t[k] <= '9'
        invariant
            k <= t.len(),
            forall|j: int| 0 <= j < k ==> is_digit(t@[j]),
        decreases t.len() - k,
    {
        k = k + 1;
    }
    proof {
        lemma_digit_run(t@, k as int);
    }
    let num = slice_to_vec(&t, 0, k);
    let unit = slice_to_vec(&t, k, t.len());
    assert(num@ =~= t@.take(k as int));
    assert(unit@ =~= t@.skip(k as int));
    match parse_u64_chars(&num) {
        None => {
            let mut out = String::new();
            push_char(&mut out, '\'');
            let ts = string_from_chars(&t);
            append_str(&mut out, ts.as_str());
            append_str(&mut out, "' does not start with a number");
            Err(out)
        },
        Some(n) => match unit_multiplier_exec(&unit) {
            Some(m) => Ok((n, m)),
            None => {
                let mut out = String::new();
                append_str(&mut out, "unknown duration unit '");
                let us = string_from_chars(&unit);
                append_str(&mut out, us.as_str());
                push_char(&mut out, '\'');
                Err(out)
            },
        },
    }
}

/// Parses a duration into milliseconds.
pub fn parse_duration(s: &str) -> (r: Result<u64, String>)
    requires
        duration_fits(s@),
    ensures
        match spec_parse_duration(s@) {
            Ok(v) => r matches Ok(ms) && ms == v,
            Err(e) => r matches Err(m) && m@ == e,
        },
{
    let (n, m) = duration_parts(s)?;
    assert(n as nat * m as nat <= u64::MAX);
    Ok(n * m)
}

/// Whether a duration's millisecond count fits in a `u64` (a text that is
/// no duration at all fits: parsing it reports its error).
pub fn duration_fits_exec(s: &str) -> (r: bool)
    ensures
        r == duration_fits(s@),
{
    match duration_parts(s) {
        Err(_) => true,
        Ok((n, m)) => {
            let a: u128 = n as u128;
            let b: u128 = m as u128;
            assert(a * b <= 0xffff_ffff_ffff_ffffu128 * 0xffff_ffff_ffff_ffffu128) by (nonlinear_arith)
                requires a <= 0xffff_ffff_ffff_ffffu128, b <= 0xffff_ffff_ffff_ffffu128;
            let p: u128 = a * b;
            p <= 0xffff_ffff_ffff_ffffu128
        },
    }
}

} // verus!

verus! {

/// A character allowed in a `${NAME}` reference.
pub open spec fn is_name_char(c: char) -> bool {
    ('a' <= c && c <= 'z') || ('A' <= c && c <= 'Z') || ('0' <= c && c <= '9') || c == '_'
}

/// The value of the first variable named `name`.
pub open spec fn env_lookup(env: Seq<(Seq<char>, Seq<char>)>, name: Seq<char>) -> Option<Seq<char>>
    decreases env.len(),
{
    if env.len() == 0 {
        None
    } else if env[0].0 == name {
        Some(env[0].1)
    } else {
        env_lookup(env.drop_first(), name)
    }
}

/// A `${NAME}` reference starting at the front of `s`: the name's length.
pub open spec fn var_ref_at(s: Seq<char>) -> Option<int> {
    if s.len() >= 2 && s[0] == '$' && s[1] == '{' {
        match first_index_of(s.skip(2), '}') {
            Some(j) => if j > 0 && forall|k: int| 2 <= k < 2 + j ==> is_name_char(s[k]) {
                Some(j)
            } else {
                None
            },
            None => None,
        }
    } else {
        None
    }
}

pub open spec fn prepend(p: Seq<char>, r: Result<Seq<char>, Seq<char>>) -> Result<Seq<char>, Seq<char>> {
    match r {
        Ok(x) => Ok(p + x),
        Err(e) => Err(e),
    }
}

/// Expansion of every `${NAME}` reference against `env`; the error is the
/// first undefined name.
pub open spec fn spec_expand_env(s: Seq<char>, env: Seq<(Seq<char>, Seq<char>)>) -> Result<Seq<char>, Seq<char>>
    decreases s.len(),
{
    if s.len() == 0 {
        Ok(Seq::empty())
    } else {
        match var_ref_at(s) {
            Some(j) => {
                if 0 < j && j + 3 <= s.len() {
                    let name = s.subrange(2, 2 + j);
                    match env_lookup(env, name) {
                        None => Err(name),
                        Some(v) => prepend(v, spec_expand_env(s.skip(2 + j + 1), env)),
                    }
                } else {
                    Err(Seq::empty())
                }
            },
            None => prepend(seq![s[0]], spec_expand_env(s.drop_first(), env)),
        }
    }
}

/// A non-empty run of ASCII letters, digits and `_`.
pub open spec fn ascii_name(name: Seq<char>) -> bool {
    &&& name.len() > 0
    &&& forall|k: int|
        0 <= k < name.len() ==> ('a' <= #[trigger] name[k] && name[k] <= 'z') || ('A' <= name[k] && name[k] <= 'Z')
            || ('0' <= name[k] && name[k] <= '9') || name[k] == '_'
}

/// Law: `${NAME}`, for a name of ASCII letters, digits and `_`, expands
/// to the variable's value, or fails naming it when it is not defined.
pub proof fn law_expand_reference(name: Seq<char>, env: Seq<(Seq<char>, Seq<char>)>)
    requires
        ascii_name(name),
    ensures
        spec_expand_env(seq!['$', '{'] + name + seq!['}'], env) == match env_lookup(env, name) {
            Some(v) => Ok(v),
            None => Err(name),
        },
{
    let s = seq!['$', '{'] + name + seq!['}'];
    let j = name.len() as int;
    let rest = s.skip(2);
    assert(rest =~= name + seq!['}']);
    assert forall|k: int| 0 <= k < j implies rest[k] != '}' by {
        assert(rest[k] == name[k]);
    }
    crate::text::lemma_first_index_of(rest, '}', j);
    assert forall|k: int| 2 <= k < 2 + j implies is_name_char(s[k]) by {
        assert(s[k] == name[k - 2]);
    }
    assert(var_ref_at(s) == Some(j));
    assert(s.subrange(2, 2 + j) =~= name);
    assert(s.skip(2 + j + 1) =~= Seq::<char>::empty());
    assert(spec_expand_env(Seq::<char>::empty(), env) == Ok::<Seq<char>, Seq<char>>(Seq::empty()));
    if let Some(v) = env_lookup(env, name) {
        assert(v + Seq::<char>::empty() =~= v);
    }
}

pub open spec fn env_model(env: Seq<(String, String)>) -> Seq<(Seq<char>, Seq<char>)> {
    Seq::new(env.len(), |i: int| (env[i].0@, env[i].1@))
}

fn env_find(env: &Vec<(String, String)>, name: &str) -> (r: Option<String>)
    ensures
        r matches Some(v) ==> env_lookup(env_model(env@), name@) == Some(v@),
        r is None ==> env_lookup(env_model(env@), name@) is None,
{
    let mut i: usize = 0;
    assert(env_model(env@).skip(0) =~= env_model(env@));
    while i < env.len()
        invariant
            i <= env.len(),
            env_lookup(env_model(env@), name@) == env_lookup(env_model(env@).skip(i as int), name@),
        decreases env.len() - i,
    {
        let ghost rest = env_model(env@).skip(i as int);
        if str_eq_exec(env[i].0.as_str(), name) {
            return Some(env[i].1.clone());
        }
        assert(rest.drop_first() =~= env_model(env@).skip(i + 1));
        i = i + 1;
    }
    None
}

fn str_eq_exec(a: &str, b: &str) -> (r: bool)
    ensures
        r == (a@ == b@),
{
    crate::text::str_eq(a, b)
}

proof fn lemma_prepend_assoc(a: Seq<char>, b: Seq<char>, r: Result<Seq<char>, Seq<char>>)
    ensures
        prepend(a, prepend(b, r)) == prepend(a + b, r),
{
    if let Ok(x) = r {
        assert(a + (b + x) =~= (a + b) + x);
    }
}

/// If a valid `${NAME}` reference starts at `i`, the index of its `}`.
#[verifier::loop_isolation(false)]
fn scan_var_ref(chars: &Vec<char>, i: usize) -> (r: Option<usize>)
    requires
        i < chars.len(),
    ensures
        r matches Some(close) ==> i + 2 < close < chars.len() && var_ref_at(chars@.skip(i as int))
            == Some(close - i - 2),
        r is None ==> var_ref_at(chars@.skip(i as int)) is None,
{
    let ghost rest = chars@.skip(i as int);
    if !(chars[i] == '$' && i + 1 < chars.len() && chars[i + 1] == '{') {
        return None;
    }
    let close = crate::text::find_char_from(chars, '}', i + 2);
    let ghost j = (close - i - 2) as int;
    proof {
        assert forall|q: int| 0 <= q < j implies rest.skip(2)[q] != '}' by {
            assert(rest.skip(2)[q] == chars@[i + 2 + q]);
        }
        if close < chars.len() {
            assert(rest.skip(2)[j] == chars@[close as int]);
        }
        crate::text::lemma_first_index_of(rest.skip(2), '}', j);
    }
    if !(close < chars.len() && close > i + 2) {
        return None;
    }
    let mut ok = true;
    let mut k = i + 2;
    while k < close
        invariant
            i + 2 <= k <= close < chars.len(),
            ok ==> forall|q: int| i + 2 <= q < k ==> is_name_char(chars@[q]),
            !ok ==> exists|q: int| i + 2 <= q < k && !is_name_char(chars@[q]),
        decreases close - k,
    {
        let c = chars[k];
        if !(('a' <= c && c <= 'z') || ('A' <= c && c <= 'Z') || ('0' <= c && c <= '9') || c == '_') {
            ok = false;
        }
        k = k + 1;
    }
    if ok {
        assert forall|q: int| 2 <= q < 2 + j implies is_name_char(rest[q]) by {
            assert(rest[q] == chars@[i + q]);
        }
        Some(close)
    } else {
        proof {
            let q0 = choose|q: int| i + 2 <= q < close && !is_name_char(chars@[q]);
            assert(rest[q0 - i] == chars@[q0]);
        }
        None
    }
}

/// Expands `${NAME}` references (NAME: ASCII letters, digits, `_`) from
/// the given variables. An undefined variable is an error, never an empty
/// string.
#[verifier::loop_isolation(false)]
pub fn expand_env(input: &str, env: &Vec<(String, String)>) -> (r: Result<String, ConfigError>)
    ensures
        match spec_expand_env(input@, env_model(env@)) {
            Ok(v) => r matches Ok(x) && x@ == v,
            Err(name) => r matches Err(ConfigError::UndefinedEnvVar(n)) && n@ == name,
        },
{
    let chars = chars_of(input);
    let ghost full = input@;
    let ghost envm = env_model(env@);
    let mut out = String::new();
    let mut i: usize = 0;
    assert(full.skip(0) =~= full);
    assert(out@ + Seq::<char>::empty() =~= Seq::<char>::empty());
    assert(prepend(out@, spec_expand_env(full, envm)) == spec_expand_env(full, envm)) by {
        if let Ok(x) = spec_expand_env(full, envm) {
            assert(out@ + x =~= x);
        }
    }
    while i < chars.len()
        invariant
            i <= chars.len(),
            chars@ == full,
            spec_expand_env(full, envm) == prepend(out@, spec_expand_env(full.skip(i as int), envm)),
        decreases chars.len() - i,
    {
        let ghost rest = full.skip(i as int);
        match scan_var_ref(&chars, i) {
            Some(close) => {
                let name_v = slice_to_vec(&chars, i + 2, close);
                let name = string_from_chars(&name_v);
                proof {
                    let j = (close - i - 2) as int;
                    assert(name@ =~= rest.subrange(2, 2 + j));
                    assert(rest.skip(2 + j + 1) =~= full.skip(close + 1));
                }
                match env_find(env, name.as_str()) {
                    None => {
                        return Err(ConfigError::UndefinedEnvVar(name));
                    },
                    Some(v) => {
                        proof {
                            let j = (close - i - 2) as int;
                            assert(rest.len() > 0);
                            assert(j + 3 <= rest.len());
                            assert(spec_expand_env(rest, envm) == prepend(v@, spec_expand_env(rest.skip(2 + j + 1), envm)));
                            lemma_prepend_assoc(out@, v@, spec_expand_env(full.skip(close + 1), envm));
                        }
                        append_str(&mut out, v.as_str());
                        i = close + 1;
                    },
                }
            },
            None => {
                assert(rest.drop_first() =~= full.skip(i + 1));
                assert(rest[0] == chars@[i as int]);
                proof {
                    assert(rest.len() > 0);
                    assert(spec_expand_env(rest, envm) == prepend(seq![rest[0]], spec_expand_env(rest.drop_first(), envm)));
                    lemma_prepend_assoc(out@, seq![chars@[i as int]], spec_expand_env(full.skip(i + 1), envm));
                }
                let ghost old_out = out@;
                push_char(&mut out, chars[i]);
                assert(out@ =~= old_out + seq![chars@[i as int]]);
                i = i + 1;
            },
        }
    }
    assert(full.skip(i as int) =~= Seq::<char>::empty());
    assert(out@ + Seq::<char>::empty() =~= out@);
    Ok(out)
}

} // verus!

verus! {

/// The part of a component id before the first `/`.
pub open spec fn spec_component_type(id: Seq<char>) -> Seq<char> {
    match first_index_of(id, '/') {
        Some(i) => id.take(i),
        None => id,
    }
}

/// Component ids follow `type[/name]`; the part before `/` is the type.
pub fn component_type(id: &str) -> (r: String)
    ensures
        r@ == spec_component_type(id@),
{
    let v = chars_of(id);
    let i = crate::text::find_char_from(&v, '/', 0);
    proof {
        crate::text::lemma_first_index_of(id@, '/', i as int);
    }
    let p = slice_to_vec(&v, 0, i);
    if i == v.len() {
        assert(p@ =~= id@);
    } else {
        assert(p@ =~= id@.take(i as int));
    }
    string_from_chars(&p)
}

/// One pipeline: ordered component names.
pub struct PipelineConfig {
    pub receivers: Vec<String>,
    pub operators: Vec<String>,
    pub exporters: Vec<String>,
}

pub struct ServiceConfig {
    pub pipelines: Vec<(String, PipelineConfig)>,
}

/// The top-level config shape: each component's own settings stay JSON.
pub struct RawConfig {
    pub receivers: JsonMap,
    pub operators: JsonMap,
    pub exporters: JsonMap,
    pub service: ServiceConfig,
}

pub open spec fn names(v: Seq<String>) -> Seq<Seq<char>> {
    Seq::new(v.len(), |i: int| v[i]@)
}

/// Whether a name has an entry in an object model.
pub open spec fn obj_has(o: JObj, k: Seq<char>) -> bool {
    exists|i: int| 0 <= i < o.len() && o[i].0 == k
}

/// First name of `ns` with no entry in `o`.
pub open spec fn first_missing(ns: Seq<Seq<char>>, o: JObj) -> Option<Seq<char>>
    decreases ns.len(),
{
    if ns.len() == 0 {
        None
    } else if !obj_has(o, ns[0]) {
        Some(ns[0])
    } else {
        first_missing(ns.drop_first(), o)
    }
}

/// What is wrong with one pipeline, checked in order: no receivers, no
/// exporters, an unknown receiver, operator, then exporter.
pub enum PipelineProblem {
    NoReceivers,
    NoExporters,
    Unknown(Seq<char>, Seq<char>),
}

/// The first problem of a pipeline with these component names, against
/// the configured receivers, operators and exporters.
pub open spec fn problem_of(
    rs: Seq<Seq<char>>,
    os: Seq<Seq<char>>,
    es: Seq<Seq<char>>,
    recv: JObj,
    ops: JObj,
    exps: JObj,
) -> Option<PipelineProblem> {
    if rs.len() == 0 {
        Some(PipelineProblem::NoReceivers)
    } else if es.len() == 0 {
        Some(PipelineProblem::NoExporters)
    } else if let Some(n) = first_missing(rs, recv) {
        Some(PipelineProblem::Unknown("receiver"@, n))
    } else if let Some(n) = first_missing(os, ops) {
        Some(PipelineProblem::Unknown("operator"@, n))
    } else if let Some(n) = first_missing(es, exps) {
        Some(PipelineProblem::Unknown("exporter"@, n))
    } else {
        None
    }
}

pub open spec fn pipeline_problem(p: PipelineConfig, c: RawConfig) -> Option<PipelineProblem> {
    problem_of(
        names(p.receivers@),
        names(p.operators@),
        names(p.exporters@),
        obj_model(c.receivers@),
        obj_model(c.operators@),
        obj_model(c.exporters@),
    )
}

/// The error `validate` reports for a pipeline's problem.
pub open spec fn problem_error(pname: Seq<char>, pr: PipelineProblem, e: ConfigError) -> bool {
    match pr {
        PipelineProblem::NoReceivers => e matches ConfigError::EmptyPipelineReceivers(n) && n@ == pname,
        PipelineProblem::NoExporters => e matches ConfigError::EmptyPipelineExporters(n) && n@ == pname,
        PipelineProblem::Unknown(kind, name) => e matches ConfigError::UnknownComponent { pipeline, kind: k, name: n }
            && pipeline@ == pname && k@ == kind && n@ == name,
    }
}

fn obj_has_exec(m: &JsonMap, k: &str) -> (r: bool)
    ensures
        r == obj_has(obj_model(m@), k@),
{
    let r = crate::json::map_find(m, k);
    proof {
        crate::json::lemma_find_key_bounds(obj_model(m@), k@);
    }
    r.is_some()
}

fn find_missing(ns: &Vec<String>, m: &JsonMap) -> (r: Option<usize>)
    ensures
        r matches Some(i) ==> i < ns@.len() && first_missing(names(ns@), obj_model(m@)) == Some(ns@[i as int]@),
        r is None ==> first_missing(names(ns@), obj_model(m@)) is None,
{
    let mut i: usize = 0;
    assert(names(ns@).skip(0) =~= names(ns@));
    while i < ns.len()
        invariant
            i <= ns.len(),
            first_missing(names(ns@), obj_model(m@)) == first_missing(names(ns@).skip(i as int), obj_model(m@)),
        decreases ns.len() - i,
    {
        assert(names(ns@).skip(i as int).drop_first() =~= names(ns@).skip(i + 1));
        if !obj_has_exec(m, ns[i].as_str()) {
            return Some(i);
        }
        i = i + 1;
    }
    None
}

impl RawConfig {
    /// Checks every pipeline in order; the first problem found is the
    /// error.
    pub fn validate(&self) -> (r: Result<(), ConfigError>)
        ensures
            r is Ok <==> forall|i: int| 0 <= i < self.service.pipelines@.len()
                ==> pipeline_problem(#[trigger] self.service.pipelines@[i].1, *self) is None,
            r matches Err(e) ==> exists|i: int| #![trigger self.service.pipelines@[i]] 0 <= i < self.service.pipelines@.len()
                && (forall|j: int| 0 <= j < i ==> pipeline_problem(#[trigger] self.service.pipelines@[j].1, *self) is None)
                && (pipeline_problem(self.service.pipelines@[i].1, *self) matches Some(pr)
                && problem_error(self.service.pipelines@[i].0@, pr, e)),
    {
        let ps = &self.service.pipelines;
        let mut i: usize = 0;
        while i < ps.len()
            invariant
                i <= ps.len(),
                ps == &self.service.pipelines,
                forall|j: int| 0 <= j < i ==> pipeline_problem(#[trigger] ps@[j].1, *self) is None,
            decreases ps.len() - i,
        {
            let p = &ps[i].1;
            let pname = &ps[i].0;
            if p.receivers.len() == 0 {
                return Err(ConfigError::EmptyPipelineReceivers(pname.clone()));
            }
            if p.exporters.len() == 0 {
                return Err(ConfigError::EmptyPipelineExporters(pname.clone()));
            }
            if let Some(k) = find_missing(&p.receivers, &self.receivers) {
                return Err(ConfigError::UnknownComponent { pipeline: pname.clone(), kind: "receiver", name: p.receivers[k].clone() });
            }
            if let Some(k) = find_missing(&p.operators, &self.operators) {
                return Err(ConfigError::UnknownComponent { pipeline: pname.clone(), kind: "operator", name: p.operators[k].clone() });
            }
            if let Some(k) = find_missing(&p.exporters, &self.exporters) {
                return Err(ConfigError::UnknownComponent { pipeline: pname.clone(), kind: "exporter", name: p.exporters[k].clone() });
            }
            i = i + 1;
        }
        Ok(())
    }
}

} // verus!

verus! {

/// The strings of an array of strings.
pub open spec fn string_list(v: JVal) -> Option<Seq<Seq<char>>> {
    match v {
        JVal::Arr(a) => if forall|i: int| 0 <= i < a.len() ==> #[trigger] a[i] is Str {
            Some(Seq::new(a.len(), |i: int| a[i]->Str_0))
        } else {
            None
        },
        _ => None,
    }
}

/// An optional list-of-strings field: absent means empty.
pub open spec fn opt_string_list(o: JObj, k: Seq<char>) -> Option<Seq<Seq<char>>> {
    match crate::json::lookup(o, k) {
        None => Some(Seq::empty()),
        Some(v) => string_list(v),
    }
}

/// An optional map field: absent means empty.
pub open spec fn opt_map(o: JObj, k: Seq<char>) -> Option<JObj> {
    match crate::json::lookup(o, k) {
        None => Some(Seq::empty()),
        Some(JVal::Obj(m)) => Some(m),
        Some(_) => None,
    }
}

/// A pipeline definition is well shaped.
pub open spec fn pipeline_shape_ok(v: JVal) -> bool {
    &&& v is Obj
    &&& opt_string_list(v->Obj_0, "receivers"@) is Some
    &&& opt_string_list(v->Obj_0, "operators"@) is Some
    &&& opt_string_list(v->Obj_0, "exporters"@) is Some
}

/// The document has the top-level config shape.
pub open spec fn raw_shape_ok(v: JVal) -> bool {
    &&& v is Obj
    &&& opt_map(v->Obj_0, "receivers"@) is Some
    &&& opt_map(v->Obj_0, "operators"@) is Some
    &&& opt_map(v->Obj_0, "exporters"@) is Some
    &&& crate::json::lookup(v->Obj_0, "service"@) matches Some(JVal::Obj(svc))
    &&& crate::json::lookup(svc, "pipelines"@) matches Some(JVal::Obj(ps))
    &&& forall|i: int| 0 <= i < ps.len() ==> pipeline_shape_ok(#[trigger] ps[i].1)
}

pub open spec fn pipeline_matches(p: PipelineConfig, v: JVal) -> bool {
    &&& Some(names(p.receivers@)) == opt_string_list(v->Obj_0, "receivers"@)
    &&& Some(names(p.operators@)) == opt_string_list(v->Obj_0, "operators"@)
    &&& Some(names(p.exporters@)) == opt_string_list(v->Obj_0, "exporters"@)
}

/// A config read from a document of the right shape.
pub open spec fn raw_matches(c: RawConfig, v: JVal) -> bool {
    &&& Some(obj_model(c.receivers@)) == opt_map(v->Obj_0, "receivers"@)
    &&& Some(obj_model(c.operators@)) == opt_map(v->Obj_0, "operators"@)
    &&& Some(obj_model(c.exporters@)) == opt_map(v->Obj_0, "exporters"@)
    &&& crate::json::lookup(v->Obj_0, "service"@) matches Some(JVal::Obj(svc))
    &&& crate::json::lookup(svc, "pipelines"@) matches Some(JVal::Obj(ps))
    &&& c.service.pipelines@.len() == ps.len()
    &&& forall|i: int| 0 <= i < ps.len() ==> #[trigger] c.service.pipelines@[i].0@ == ps[i].0
        && pipeline_matches(c.service.pipelines@[i].1, ps[i].1)
}

proof fn lemma_bad_pipeline(doc: JVal, svc: JObj, ps: JObj, i: int)
    requires
        doc is Obj,
        crate::json::lookup(doc->Obj_0, "service"@) == Some(JVal::Obj(svc)),
        crate::json::lookup(svc, "pipelines"@) == Some(JVal::Obj(ps)),
        0 <= i < ps.len(),
        !pipeline_shape_ok(ps[i].1),
    ensures
        !raw_shape_ok(doc),
{
    if raw_shape_ok(doc) {
        let ps2 = crate::json::lookup(svc, "pipelines"@).unwrap()->Obj_0;
        assert(ps2 == ps);
        assert(pipeline_shape_ok(ps2[i].1));
    }
}

fn parse_error(msg: &str) -> (r: ConfigError)
    ensures
        r matches ConfigError::Parse(m) && m@ == msg@,
{
    ConfigError::Parse(msg.to_owned())
}

/// Reads an array of strings.
pub fn read_string_list(v: &JsonValue) -> (r: Option<Vec<String>>)
    ensures
        r matches Some(l) ==> string_list(v@) == Some(names(l@)),
        r is None ==> string_list(v@) is None,
{
    match v.as_array() {
        None => None,
        Some(a) => {
            let mut out: Vec<String> = Vec::new();
            let mut i: usize = 0;
            while i < a.len()
                invariant
                    i <= a.len(),
                    out@.len() == i,
                    v@ == JVal::Arr(crate::json::arr_model(a@)),
                    forall|j: int| 0 <= j < i ==> (#[trigger] a@[j])@ == JVal::Str(out@[j]@),
                decreases a.len() - i,
            {
                match a[i].as_str() {
                    Some(s) => out.push(s.to_owned()),
                    None => {
                        assert(crate::json::arr_model(a@)[i as int] == a@[i as int]@);
                        assert(!(crate::json::arr_model(a@)[i as int] is Str));
                        return None;
                    },
                }
                i = i + 1;
            }
            proof {
                let m = crate::json::arr_model(a@);
                assert forall|j: int| 0 <= j < m.len() implies #[trigger] m[j] is Str by {
                    assert(m[j] == a@[j]@);
                }
                assert(Seq::new(m.len(), |j: int| m[j]->Str_0) =~= names(out@)) by {
                    assert forall|j: int| 0 <= j < m.len() implies m[j]->Str_0 == names(out@)[j] by {
                        assert(m[j] == a@[j]@);
                    }
                }
            }
            Some(out)
        },
    }
}

/// Reads an optional list-of-strings field.
pub fn read_opt_string_list(o: &JsonMap, key: &str) -> (r: Option<Vec<String>>)
    ensures
        r matches Some(l) ==> opt_string_list(obj_model(o@), key@) == Some(names(l@)),
        r is None ==> opt_string_list(obj_model(o@), key@) is None,
{
    match crate::json::map_get(o, key) {
        None => {
            let empty: Vec<String> = Vec::new();
            assert(names(empty@) =~= Seq::<Seq<char>>::empty());
            Some(empty)
        },
        Some(v) => read_string_list(v),
    }
}

/// Reads an optional map field.
pub fn read_opt_map(o: &JsonMap, key: &str) -> (r: Option<JsonMap>)
    ensures
        r matches Some(m) ==> opt_map(obj_model(o@), key@) == Some(obj_model(m@)),
        r is None ==> opt_map(obj_model(o@), key@) is None,
{
    match crate::json::map_get(o, key) {
        None => {
            let empty: JsonMap = Vec::new();
            assert(obj_model(empty@) =~= Seq::<(Seq<char>, JVal)>::empty());
            Some(empty)
        },
        Some(v) => match v.as_object() {
            Some(m) => Some(crate::json::copy_map(m)),
            None => None,
        },
    }
}

impl RawConfig {
    /// Reads the config shape out of a parsed document.
    #[verifier::loop_isolation(false)]
    pub fn from_json(v: &JsonValue) -> (r: Result<RawConfig, ConfigError>)
        ensures
            r is Ok <==> raw_shape_ok(v@),
            r matches Ok(c) ==> raw_matches(c, v@),
            r matches Err(e) ==> e is Parse,
    {
        let top = match v.as_object() {
            Some(o) => o,
            None => { return Err(parse_error("invalid type: expected a map")); },
        };
        let receivers = match read_opt_map(top, "receivers") {
            Some(m) => m,
            None => { return Err(parse_error("receivers: invalid type: expected a map")); },
        };
        let operators = match read_opt_map(top, "operators") {
            Some(m) => m,
            None => { return Err(parse_error("operators: invalid type: expected a map")); },
        };
        let exporters = match read_opt_map(top, "exporters") {
            Some(m) => m,
            None => { return Err(parse_error("exporters: invalid type: expected a map")); },
        };
        let svc = match crate::json::map_get(top, "service") {
            Some(s) => match s.as_object() {
                Some(o) => o,
                None => { return Err(parse_error("service: invalid type: expected a map")); },
            },
            None => { return Err(parse_error("missing field `service`")); },
        };
        let ps = match crate::json::map_get(svc, "pipelines") {
            Some(p) => match p.as_object() {
                Some(o) => o,
                None => { return Err(parse_error("service.pipelines: invalid type: expected a map")); },
            },
            None => { return Err(parse_error("service: missing field `pipelines`")); },
        };
        let ghost psm = obj_model(ps@);
        assert(v@ == JVal::Obj(obj_model(top@)));
        assert(crate::json::lookup(obj_model(top@), "service"@) == Some(JVal::Obj(obj_model(svc@))));
        assert(crate::json::lookup(obj_model(svc@), "pipelines"@) == Some(JVal::Obj(psm)));
        let mut pipelines: Vec<(String, PipelineConfig)> = Vec::new();
        let mut i: usize = 0;
        while i < ps.len()
            invariant
                i <= ps.len(),
                psm == obj_model(ps@),
                pipelines@.len() == i,
                forall|j: int| 0 <= j < i ==> pipeline_shape_ok(#[trigger] psm[j].1),
                forall|j: int| 0 <= j < i ==> #[trigger] pipelines@[j].0@ == psm[j].0
                    && pipeline_matches(pipelines@[j].1, psm[j].1),
            decreases ps.len() - i,
        {
            assert(psm[i as int].1 == ps@[i as int].1@);
            let pv = match ps[i].1.as_object() {
                Some(o) => o,
                None => {
                    proof {
                        lemma_bad_pipeline(v@, obj_model(svc@), psm, i as int);
                    }
                    return Err(parse_error("pipeline: invalid type: expected a map"));
                },
            };
            let r = match read_opt_string_list(pv, "receivers") {
                Some(l) => l,
                None => {
                    proof {
                        lemma_bad_pipeline(v@, obj_model(svc@), psm, i as int);
                    }
                    return Err(parse_error("pipeline receivers: expected a list of strings"));
                },
            };
            let o = match read_opt_string_list(pv, "operators") {
                Some(l) => l,
                None => {
                    proof {
                        lemma_bad_pipeline(v@, obj_model(svc@), psm, i as int);
                    }
                    return Err(parse_error("pipeline operators: expected a list of strings"));
                },
            };
            let e = match read_opt_string_list(pv, "exporters") {
                Some(l) => l,
                None => {
                    proof {
                        lemma_bad_pipeline(v@, obj_model(svc@), psm, i as int);
                    }
                    return Err(parse_error("pipeline exporters: expected a list of strings"));
                },
            };
            pipelines.push((ps[i].0.clone(), PipelineConfig { receivers: r, operators: o, exporters: e }));
            i = i + 1;
        }
        Ok(RawConfig { receivers, operators, exporters, service: ServiceConfig { pipelines } })
    }
}

/// Every pipeline of a well-shaped document passes the checks of
/// `RawConfig::validate`.
pub open spec fn doc_pipelines_ok(doc: JVal) -> bool {
    let top = doc->Obj_0;
    let ps = crate::json::lookup(crate::json::lookup(top, "service"@).unwrap()->Obj_0, "pipelines"@).unwrap()->Obj_0;
    forall|i: int| 0 <= i < ps.len() ==> problem_of(
        opt_string_list((#[trigger] ps[i]).1->Obj_0, "receivers"@).unwrap(),
        opt_string_list(ps[i].1->Obj_0, "operators"@).unwrap(),
        opt_string_list(ps[i].1->Obj_0, "exporters"@).unwrap(),
        opt_map(top, "receivers"@).unwrap(),
        opt_map(top, "operators"@).unwrap(),
        opt_map(top, "exporters"@).unwrap(),
    ) is None
}

/// Loads a config from YAML text: expands `${VAR}` references from `env`,
/// parses, reads the config shape, and validates pipeline references.
pub fn load_str(yaml: &str, env: &Vec<(String, String)>) -> (r: Result<RawConfig, ConfigError>)
    ensures
        r is Ok <==> (spec_expand_env(yaml@, env_model(env@)) matches Ok(t)
            && crate::json::spec_yaml_parse(t) matches Ok(doc)
            && raw_shape_ok(doc) && doc_pipelines_ok(doc)),
        r matches Ok(c) ==> spec_expand_env(yaml@, env_model(env@)) matches Ok(t)
            && crate::json::spec_yaml_parse(t) matches Ok(doc) && raw_matches(c, doc),
        spec_expand_env(yaml@, env_model(env@)) matches Err(name) ==> r matches Err(ConfigError::UndefinedEnvVar(n)) && n@ == name,
        spec_expand_env(yaml@, env_model(env@)) matches Ok(t) ==> (crate::json::spec_yaml_parse(t) matches Err(m)
            ==> r matches Err(ConfigError::Parse(pm)) && pm@ == m),
{
    let expanded = expand_env(yaml, env)?;
    let doc = match crate::json::yaml_parse(expanded.as_str()) {
        Ok(d) => d,
        Err(m) => { return Err(ConfigError::Parse(m)); },
    };
    let raw = RawConfig::from_json(&doc)?;
    let ok = raw.validate();
    proof {
        let top = doc@->Obj_0;
        let ps = crate::json::lookup(crate::json::lookup(top, "service"@).unwrap()->Obj_0, "pipelines"@).unwrap()->Obj_0;
        assert forall|i: int| 0 <= i < ps.len() implies problem_of(
            opt_string_list((#[trigger] ps[i]).1->Obj_0, "receivers"@).unwrap(),
            opt_string_list(ps[i].1->Obj_0, "operators"@).unwrap(),
            opt_string_list(ps[i].1->Obj_0, "exporters"@).unwrap(),
            opt_map(top, "receivers"@).unwrap(),
            opt_map(top, "operators"@).unwrap(),
            opt_map(top, "exporters"@).unwrap(),
        ) == pipeline_problem(raw.service.pipelines@[i].1, raw) by {
            assert(raw.service.pipelines@[i].0@ == ps[i].0);
        }
        if ok is Ok {
            assert forall|i: int| 0 <= i < ps.len() implies problem_of(
                opt_string_list((#[trigger] ps[i]).1->Obj_0, "receivers"@).unwrap(),
                opt_string_list(ps[i].1->Obj_0, "operators"@).unwrap(),
                opt_string_list(ps[i].1->Obj_0, "exporters"@).unwrap(),
                opt_map(top, "receivers"@).unwrap(),
                opt_map(top, "operators"@).unwrap(),
                opt_map(top, "exporters"@).unwrap(),
            ) is None by {
                assert(pipeline_problem(raw.service.pipelines@[i].1, raw) is None);
            }
        } else {
            let i = choose|i: int| 0 <= i < raw.service.pipelines@.len()
                && !(pipeline_problem(#[trigger] raw.service.pipelines@[i].1, raw) is None);
            assert(ps[i] == ps[i]);
        }
    }
    match ok {
        Ok(()) => Ok(raw),
        Err(e) => Err(e),
    }
}

} // verus!
