use vstd::prelude::*;

use crate::text::copy_string;

verus! {

#[verifier::external_type_specification]
#[verifier::external_body]
pub struct ExPattern(glob::Pattern);

#[verifier::external_type_specification]
#[verifier::external_body]
pub struct ExPatternError(glob::PatternError);

/// Whether the glob crate accepts a text as a pattern.
pub uninterp spec fn glob_accepts(p: Seq<char>) -> bool;

/// Relies on `glob::Pattern::new`: compiles a shell-style pattern, or reports a syntax
/// error; which texts are accepted depends on the text alone.
#[verifier::external_body]
fn compile_glob(p: &str) -> (r: Result<glob::Pattern, glob::PatternError>)
    ensures
        r is Ok <==> glob_accepts(p@),
{
    glob::Pattern::new(p)
}

/// The lowercase form of a text, as Unicode defines it.
pub uninterp spec fn lower_of(s: Seq<char>) -> Seq<char>;

/// Relies on `str::to_lowercase`: the result depends on the characters alone.
#[verifier::external_body]
fn lowercase(s: &str) -> (r: String)
    ensures
        r@ == lower_of(s@),
{
    s.to_lowercase()
}

/// The glob options of a copy pattern, as configured.
#[derive(Debug, Clone)]
pub struct RawCopyGlobOptions {
    pub case_sensitive_match: Option<bool>,
    pub dot: Option<bool>,
    pub ignore: Option<Vec<String>>,
}

/// A copy pattern, as configured.
#[derive(Debug, Clone)]
pub struct RawCopyPattern {
    pub from: String,
    pub to: Option<String>,
    pub context: Option<String>,
    pub to_type: Option<String>,
    pub no_error_on_missing: bool,
    pub force: bool,
    pub priority: i32,
    pub glob_options: RawCopyGlobOptions,
}

/// The copy plugin's options, as configured.
#[derive(Debug)]
pub struct RawCopyRspackPluginOptions {
    pub patterns: Vec<RawCopyPattern>,
}

/// What the destination of a copy pattern is.
#[derive(Debug, Clone, Copy, PartialEq, Eq, Structural)]
pub enum ToType {
    Dir,
    File,
    Template,
}

#[derive(Debug)]
pub struct CopyGlobOptions {
    pub case_sensitive_match: Option<bool>,
    pub dot: Option<bool>,
    pub ignore: Option<Vec<glob::Pattern>>,
}

#[derive(Debug)]
pub struct CopyPattern {
    pub from: String,
    pub to: Option<String>,
    pub context: Option<String>,
    pub to_type: Option<ToType>,
    pub no_error_on_missing: bool,
    pub force: bool,
    pub priority: i32,
    pub glob_options: CopyGlobOptions,
}

#[derive(Debug)]
pub struct CopyRspackPluginOptions {
    pub patterns: Vec<CopyPattern>,
}

/// Why copy options could not be taken.
#[derive(Debug)]
pub enum CopyOptionsError {
    /// an ignore entry that is not a valid glob pattern
    InvalidIgnorePattern(String),
}

/// The destination kind a `toType` text names, compared without case; any other text
/// names none.
pub open spec fn to_type_of(lower: Seq<char>) -> Option<ToType> {
    if lower == "dir"@ {
        Some(ToType::Dir)
    } else if lower == "file"@ {
        Some(ToType::File)
    } else if lower == "template"@ {
        Some(ToType::Template)
    } else {
        None
    }
}

pub open spec fn raw_to_type(t: Option<String>) -> Option<ToType> {
    match t {
        Some(s) => to_type_of(lower_of(s@)),
        None => None,
    }
}

/// The first ignore entry that is not a valid glob, if any.
pub open spec fn first_bad_glob(ps: Seq<String>) -> Option<Seq<char>>
    decreases ps.len(),
{
    if ps.len() == 0 {
        None
    } else {
        match first_bad_glob(ps.drop_last()) {
            Some(b) => Some(b),
            None => if glob_accepts(ps.last()@) {
                None
            } else {
                Some(ps.last()@)
            },
        }
    }
}

pub open spec fn pattern_bad_glob(raw: RawCopyPattern) -> Option<Seq<char>> {
    match raw.glob_options.ignore {
        Some(v) => first_bad_glob(v@),
        None => None,
    }
}

/// Whether a converted pattern carries the configured values.
pub open spec fn converted(raw: RawCopyPattern, p: CopyPattern) -> bool {
    &&& p.from@ == raw.from@
    &&& crate::records::opt_view(p.to) == crate::records::opt_view(raw.to)
    &&& crate::records::opt_view(p.context) == crate::records::opt_view(raw.context)
    &&& p.to_type == raw_to_type(raw.to_type)
    &&& p.no_error_on_missing == raw.no_error_on_missing
    &&& p.force == raw.force
    &&& p.priority == raw.priority
    &&& p.glob_options.case_sensitive_match == raw.glob_options.case_sensitive_match
    &&& p.glob_options.dot == raw.glob_options.dot
    &&& (p.glob_options.ignore is Some <==> raw.glob_options.ignore is Some)
    &&& (raw.glob_options.ignore matches Some(v) ==> p.glob_options.ignore->0@.len() == v@.len())
}

fn to_type_from(t: &Option<String>) -> (r: Option<ToType>)
    ensures
        r == raw_to_type(*t),
{
    match t {
        Some(s) => {
            let l = lowercase(s.as_str());
            if crate::text::str_eq(l.as_str(), "dir") {
                Some(ToType::Dir)
            } else if crate::text::str_eq(l.as_str(), "file") {
                Some(ToType::File)
            } else if crate::text::str_eq(l.as_str(), "template") {
                Some(ToType::Template)
            } else {
                None
            }
        },
        None => None,
    }
}

fn compile_ignores(ps: &Vec<String>) -> (r: Result<Vec<glob::Pattern>, CopyOptionsError>)
    ensures
        r is Ok <==> first_bad_glob(ps@) is None,
        r matches Ok(v) ==> v@.len() == ps@.len(),
        r matches Err(CopyOptionsError::InvalidIgnorePattern(b)) ==> first_bad_glob(ps@) == Some(b@),
{
    let mut out: Vec<glob::Pattern> = Vec::new();
    let n = ps.len();
    let mut i: usize = 0;
    while i < n
        invariant
            n == ps@.len(),
            0 <= i <= n,
            out@.len() == i,
            first_bad_glob(ps@.take(i as int)) is None,
        decreases n - i,
    {
        proof {
            assert(ps@.take(i as int + 1).drop_last() =~= ps@.take(i as int));
        }
        match compile_glob(ps[i].as_str()) {
            Ok(p) => out.push(p),
            Err(_) => {
                proof {
                    lemma_first_bad_prefix(ps@, i as int + 1);
                }
                return Err(CopyOptionsError::InvalidIgnorePattern(copy_string(&ps[i])));
            },
        }
        i = i + 1;
    }
    proof {
        assert(ps@.take(n as int) =~= ps@);
    }
    Ok(out)
}

/// A bad entry in a prefix is the first bad entry of the whole list.
proof fn lemma_first_bad_prefix(ps: Seq<String>, k: int)
    requires
        0 <= k <= ps.len(),
        first_bad_glob(ps.take(k)) is Some,
    ensures
        first_bad_glob(ps) == first_bad_glob(ps.take(k)),
    decreases ps.len() - k,
{
    if k < ps.len() {
        assert(ps.take(k + 1).drop_last() =~= ps.take(k));
        lemma_first_bad_prefix(ps, k + 1);
    } else {
        assert(ps.take(k) =~= ps);
    }
}

impl CopyPattern {
    /// Takes a configured pattern: the `toType` text is read without case (an unknown one
    /// gives none), and each ignore entry is compiled as a glob; an invalid one is
    /// reported.
    pub fn from_raw(value: RawCopyPattern) -> (r: Result<CopyPattern, CopyOptionsError>)
        ensures
            r is Ok <==> pattern_bad_glob(value) is None,
            r matches Ok(p) ==> converted(value, p),
            r matches Err(CopyOptionsError::InvalidIgnorePattern(b)) ==> pattern_bad_glob(value) == Some(b@),
    {
        let to_type = to_type_from(&value.to_type);
        let ignore = match &value.glob_options.ignore {
            Some(v) => match compile_ignores(v) {
                Ok(ps) => Some(ps),
                Err(e) => {
                    return Err(e);
                },
            },
            None => None,
        };
        let RawCopyPattern { from, to, context, no_error_on_missing, force, priority, glob_options, .. } = value;
        Ok(CopyPattern {
            from,
            to,
            context,
            to_type,
            no_error_on_missing,
            force,
            priority,
            glob_options: CopyGlobOptions {
                case_sensitive_match: glob_options.case_sensitive_match,
                dot: glob_options.dot,
                ignore,
            },
        })
    }
}

/// The first configured pattern with an invalid ignore entry, and that entry.
pub open spec fn first_bad_pattern(ps: Seq<RawCopyPattern>) -> Option<Seq<char>>
    decreases ps.len(),
{
    if ps.len() == 0 {
        None
    } else {
        match first_bad_pattern(ps.drop_last()) {
            Some(b) => Some(b),
            None => pattern_bad_glob(ps.last()),
        }
    }
}

proof fn lemma_first_bad_pattern_prefix(ps: Seq<RawCopyPattern>, k: int)
    requires
        0 <= k <= ps.len(),
        first_bad_pattern(ps.take(k)) is Some,
    ensures
        first_bad_pattern(ps) == first_bad_pattern(ps.take(k)),
    decreases ps.len() - k,
{
    if k < ps.len() {
        assert(ps.take(k + 1).drop_last() =~= ps.take(k));
        lemma_first_bad_pattern_prefix(ps, k + 1);
    } else {
        assert(ps.take(k) =~= ps);
    }
}

impl CopyRspackPluginOptions {
    /// Takes each configured pattern in order; the first invalid ignore entry is reported.
    pub fn from_raw(val: RawCopyRspackPluginOptions) -> (r: Result<CopyRspackPluginOptions, CopyOptionsError>)
        ensures
            r is Ok <==> first_bad_pattern(val.patterns@) is None,
            r matches Ok(o) ==> o.patterns@.len() == val.patterns@.len() && forall|i: int|
                0 <= i < o.patterns@.len() ==> converted(val.patterns@[i], #[trigger] o.patterns@[i]),
            r matches Err(CopyOptionsError::InvalidIgnorePattern(b)) ==> first_bad_pattern(val.patterns@) == Some(b@),
    {
        let ghost all = val.patterns@;
        let mut rest = val.patterns;
        let n = rest.len();
        let mut out: Vec<CopyPattern> = Vec::new();
        let mut k: usize = 0;
        while rest.len() > 0
            invariant
                all == val.patterns@,
                n == all.len(),
                k <= n,
                rest@ == all.skip(k as int),
                out@.len() == k,
                forall|i: int| 0 <= i < k ==> converted(all[i], #[trigger] out@[i]),
                first_bad_pattern(all.take(k as int)) is None,
            decreases rest@.len(),
        {
            let raw = rest.remove(0);
            proof {
                assert(raw == all[k as int]);
                assert(all.take(k as int + 1).drop_last() =~= all.take(k as int));
                assert(rest@ =~= all.skip(k as int + 1));
            }
            match CopyPattern::from_raw(raw) {
                Ok(p) => out.push(p),
                Err(e) => {
                    proof {
                        assert(first_bad_pattern(all.take(k as int + 1)) == pattern_bad_glob(all[k as int]));
                        lemma_first_bad_pattern_prefix(all, k as int + 1);
                    }
                    return Err(e);
                },
            }
            k = k + 1;
        }
        proof {
            assert(all.take(k as int) =~= all);
        }
        Ok(CopyRspackPluginOptions { patterns: out })
    }
}

} // verus!
