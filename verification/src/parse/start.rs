//! The start pair: exactly one cold and one warm start function.

use vstd::prelude::*;
use crate::decl::{
    clone_string, has_field, no_return_type, single_function_argument, spec_remove_attrs, Attr,
    BuildError, BuildErrorKind, Decl, DeclKind, StartKind,
};

verus! {

/// Which start kinds a declaration's `start` markers carry.
#[derive(Copy, Clone, Debug, PartialEq, Eq, Structural)]
pub struct StartFlags {
    pub warm: bool,
    pub cold: bool,
}

impl StartFlags {
    /// Reads the start markers of one declaration's attribute list.
    pub fn from_attributes(attrs: &Vec<Attr>) -> (r: Result<StartFlags, BuildErrorKind>)
        ensures
            r matches Ok(f) ==> f.warm == has_field(attrs@, "start"@, "warm"@) && f.cold
                == has_field(attrs@, "start"@, "cold"@),
            r is Ok,
    {
        let warm = match crate::decl::find_field(attrs, "start", "warm") {
            Some(_) => true,
            None => false,
        };
        let cold = match crate::decl::find_field(attrs, "start", "cold") {
            Some(_) => true,
            None => false,
        };
        Ok(StartFlags { warm, cold })
    }
}

/// The declaration is a function tagged with this start kind.
pub open spec fn start_flag(d: Decl, k: Seq<char>) -> bool {
    d.kind is Func && has_field(d.attrs@, "start"@, k)
}

/// How many declarations carry this start kind.
pub open spec fn start_count(ds: Seq<Decl>, k: Seq<char>) -> int
    decreases ds.len(),
{
    if ds.len() == 0 {
        0
    } else {
        (if start_flag(ds[0], k) {
            1int
        } else {
            0int
        }) + start_count(ds.drop_first(), k)
    }
}

proof fn lemma_start_count_push(ds: Seq<Decl>, d: Decl, k: Seq<char>)
    ensures
        start_count(ds.push(d), k) == start_count(ds, k) + (if start_flag(d, k) {
            1int
        } else {
            0int
        }),
    decreases ds.len(),
{
    reveal_with_fuel(start_count, 3);
    if ds.len() == 0 {
        assert(ds.push(d)[0] == d);
        assert(ds.push(d).drop_first() =~= Seq::<Decl>::empty());
    } else {
        assert(ds.push(d)[0] == ds[0]);
        assert(ds.push(d).drop_first() =~= ds.drop_first().push(d));
        lemma_start_count_push(ds.drop_first(), d, k);
    }
}

/// The start function takes exactly one start context parameter and
/// declares no return type.
pub open spec fn start_sig_ok(d: Decl) -> bool {
    match d.kind {
        DeclKind::Func(sig) => {
            &&& sig.inputs@.len() == 1
            &&& sig.inputs@[0]@ == "start::Context"@
            &&& (sig.output is None || (sig.output matches Some(t) && t@ == "()"@))
        },
        _ => false,
    }
}

/// A declaration passes the start parser: it does not carry both start
/// kinds, and a carried kind comes with the required function shape.
pub open spec fn decl_start_ok(d: Decl) -> bool {
    &&& !(start_flag(d, "cold"@) && start_flag(d, "warm"@))
    &&& (start_flag(d, "cold"@) || start_flag(d, "warm"@)) ==> start_sig_ok(d)
}

/// The whole module passes the start parser: every declaration does, and
/// each start kind is carried exactly once.
pub open spec fn start_content_ok(ds: Seq<Decl>) -> bool {
    &&& (forall|i: int| 0 <= i < ds.len() ==> decl_start_ok(#[trigger] ds[i]))
    &&& start_count(ds, "cold"@) == 1
    &&& start_count(ds, "warm"@) == 1
}

/// The start pair: the declaration indices and identifiers of the cold
/// and warm start functions.
#[derive(Debug, PartialEq, Eq)]
pub struct Start {
    pub cold_index: usize,
    pub warm_index: usize,
    pub cold_ident: String,
    pub warm_ident: String,
}

impl Start {
    /// The identifier of the cold start function.
    pub fn cold(&self) -> (r: &String)
        ensures
            r == self.cold_ident,
    {
        &self.cold_ident
    }

    /// The identifier of the warm start function.
    pub fn warm(&self) -> (r: &String)
        ensures
            r == self.warm_ident,
    {
        &self.warm_ident
    }
}

/// A start-stage error is reported for its exact cause: a conflict names
/// a doubly-tagged function, a repetition points at both definitions, a
/// missing kind points one past the declarations, and a shape error
/// points at a tagged function of the wrong shape.
pub open spec fn start_err_ok(err: BuildError, ds: Seq<Decl>) -> bool {
    match err.kind {
        BuildErrorKind::ConflictingStartKinds => err.decl < ds.len() && start_flag(
            ds[err.decl as int],
            "cold"@,
        ) && start_flag(ds[err.decl as int], "warm"@),
        BuildErrorKind::StartAlreadyDefined { kind, first } => {
            let k = if kind == StartKind::Cold {
                "cold"@
            } else {
                "warm"@
            };
            &&& first < err.decl
            &&& err.decl < ds.len()
            &&& start_flag(ds[err.decl as int], k)
            &&& start_flag(ds[first as int], k)
        },
        BuildErrorKind::MissingStart { kind } => {
            let k = if kind == StartKind::Cold {
                "cold"@
            } else {
                "warm"@
            };
            err.decl == ds.len() && start_count(ds, k) == 0
        },
        BuildErrorKind::ReturnNotAllowed => err.decl < ds.len() && (start_flag(
            ds[err.decl as int],
            "cold"@,
        ) || start_flag(ds[err.decl as int], "warm"@)) && !start_sig_ok(ds[err.decl as int]),
        BuildErrorKind::WrongParameter { expected } => err.decl < ds.len() && (start_flag(
            ds[err.decl as int],
            "cold"@,
        ) || start_flag(ds[err.decl as int], "warm"@)) && !start_sig_ok(ds[err.decl as int])
            && expected@ == "start::Context"@,
        _ => false,
    }
}

/// The declaration with its start markers consumed.
pub open spec fn start_decl_stripped(nd: Decl, od: Decl) -> bool {
    if start_flag(od, "cold"@) || start_flag(od, "warm"@) {
        &&& nd.ident == od.ident
        &&& nd.kind == od.kind
        &&& nd.attrs@ == spec_remove_attrs(od.attrs@, "start"@)
    } else {
        nd == od
    }
}

impl Start {
    /// Walks the module's declarations and resolves the start pair:
    /// exactly one cold and one warm start function, each of the required
    /// shape, with their markers consumed. A missing or repeated kind is
    /// an error; a repeated one points back at the first definition. All
    /// errors are collected, and any error aborts the build with the
    /// declarations left untouched; a missing kind is reported against
    /// the module itself, one past the last declaration.
    pub fn from_content(items: &mut Vec<Decl>) -> (r: Result<Start, Vec<BuildError>>)
        ensures
            r is Ok <==> start_content_ok(old(items)@),
            r matches Ok(s) ==> s.cold_index < old(items)@.len() && start_flag(
                old(items)@[s.cold_index as int],
                "cold"@,
            ) && s.cold_ident == old(items)@[s.cold_index as int].ident && s.warm_index < old(
                items,
            )@.len() && start_flag(old(items)@[s.warm_index as int], "warm"@) && s.warm_ident == old(
                items,
            )@[s.warm_index as int].ident,
            r matches Ok(s) ==> final(items)@.len() == old(items)@.len() && (forall|i: int|
                0 <= i < old(items)@.len() ==> start_decl_stripped(
                    #[trigger] final(items)@[i],
                    old(items)@[i],
                )),
            r matches Err(errs) ==> errs@.len() > 0 && final(items)@ == old(items)@ && (forall|k: int|
                0 <= k < errs@.len() ==> start_err_ok(#[trigger] errs@[k], old(items)@)),
    {
        let ghost orig = items@;
        let mut errors: Vec<BuildError> = Vec::new();
        let mut cold_found: Option<usize> = None;
        let mut warm_found: Option<usize> = None;
        let mut i: usize = 0;
        while i < items.len()
            invariant
                items@ == orig,
                i <= orig.len(),
                match cold_found {
                    None => start_count(orig.take(i as int), "cold"@) == 0,
                    Some(c) => c < i && start_flag(orig[c as int], "cold"@) && start_count(
                        orig.take(i as int),
                        "cold"@,
                    ) >= 1,
                },
                match warm_found {
                    None => start_count(orig.take(i as int), "warm"@) == 0,
                    Some(w) => w < i && start_flag(orig[w as int], "warm"@) && start_count(
                        orig.take(i as int),
                        "warm"@,
                    ) >= 1,
                },
                errors@.len() == 0 <==> ((forall|j: int|
                    0 <= j < i ==> decl_start_ok(#[trigger] orig[j])) && start_count(
                    orig.take(i as int),
                    "cold"@,
                ) <= 1 && start_count(orig.take(i as int), "warm"@) <= 1),
                forall|k: int|
                    0 <= k < errors@.len() ==> start_err_ok(#[trigger] errors@[k], orig),
            decreases orig.len() - i,
        {
            let ghost prefix = orig.take(i as int);
            proof {
                assert(orig.take(i + 1 as int).drop_last() =~= prefix);
                assert(orig.take(i + 1 as int).last() == orig[i as int]);
                lemma_start_count_push(prefix, orig[i as int], "cold"@);
                lemma_start_count_push(prefix, orig[i as int], "warm"@);
                assert(prefix.push(orig[i as int]) =~= orig.take(i + 1 as int));
            }
            let d = &items[i];
            let is_func = match &d.kind {
                DeclKind::Func(_) => true,
                _ => false,
            };
            if is_func {
                let flags = match StartFlags::from_attributes(&d.attrs) {
                    Ok(f) => f,
                    Err(_) => unreached(),
                };
                if flags.cold && flags.warm {
                    errors.push(BuildError { decl: i, kind: BuildErrorKind::ConflictingStartKinds });
                } else if flags.cold || flags.warm {
                    let sig = match &d.kind {
                        DeclKind::Func(sig) => sig,
                        _ => unreached(),
                    };
                    let mut bad: bool = false;
                    match single_function_argument("start::Context", sig) {
                        Ok(()) => {},
                        Err(e) => {
                            errors.push(BuildError { decl: i, kind: e });
                            bad = true;
                        },
                    }
                    if !bad {
                        match no_return_type("Start", &sig.output) {
                            Ok(()) => {},
                            Err(e) => {
                                errors.push(BuildError { decl: i, kind: e });
                            },
                        }
                    }
                }
                if flags.cold {
                    match cold_found {
                        None => {
                            cold_found = Some(i);
                        },
                        Some(first) => {
                            errors.push(
                                BuildError {
                                    decl: i,
                                    kind: BuildErrorKind::StartAlreadyDefined {
                                        kind: StartKind::Cold,
                                        first,
                                    },
                                },
                            );
                        },
                    }
                }
                if flags.warm {
                    match warm_found {
                        None => {
                            warm_found = Some(i);
                        },
                        Some(first) => {
                            errors.push(
                                BuildError {
                                    decl: i,
                                    kind: BuildErrorKind::StartAlreadyDefined {
                                        kind: StartKind::Warm,
                                        first,
                                    },
                                },
                            );
                        },
                    }
                }
            }
            i += 1;
        }
        proof {
            assert(orig.take(orig.len() as int) =~= orig);
        }
        let cold_index = match cold_found {
            Some(c) => c,
            None => {
                errors.push(
                    BuildError {
                        decl: items.len(),
                        kind: BuildErrorKind::MissingStart { kind: StartKind::Cold },
                    },
                );
                0
            },
        };
        let warm_index = match warm_found {
            Some(w) => w,
            None => {
                errors.push(
                    BuildError {
                        decl: items.len(),
                        kind: BuildErrorKind::MissingStart { kind: StartKind::Warm },
                    },
                );
                0
            },
        };
        if errors.len() > 0 {
            return Err(errors);
        }
        proof {
            lemma_start_count_at_least(orig, "cold"@, cold_index as int);
            lemma_start_count_at_least(orig, "warm"@, warm_index as int);
        }
        let cold_ident = clone_string(&items[cold_index].ident);
        let warm_ident = clone_string(&items[warm_index].ident);
        let mut out: Vec<Decl> = Vec::new();
        let ghost mut processed: Seq<Decl> = Seq::<Decl>::empty();
        while items.len() > 0
            invariant
                processed + items@ =~= orig,
                out@.len() == processed.len(),
                forall|j: int|
                    0 <= j < processed.len() ==> start_decl_stripped(#[trigger] out@[j], processed[j]),
            decreases items@.len(),
        {
            let ghost prev = items@;
            let mut d = items.remove(0);
            proof {
                assert(prev.remove(0) =~= prev.drop_first());
                assert(d == prev[0]);
            }
            let ghost od = d;
            let is_func = match &d.kind {
                DeclKind::Func(_) => true,
                _ => false,
            };
            if is_func {
                let flags = match StartFlags::from_attributes(&d.attrs) {
                    Ok(f) => f,
                    Err(_) => unreached(),
                };
                if flags.cold || flags.warm {
                    crate::decl::remove_attributes("start", &mut d.attrs);
                }
            }
            out.push(d);
            proof {
                processed = processed.push(od);
                assert(processed + items@ =~= orig);
            }
        }
        proof {
            assert(processed =~= orig);
        }
        *items = out;
        Ok(Start { cold_index, warm_index, cold_ident, warm_ident })
    }
}

/// A tagged declaration makes the count positive.
proof fn lemma_start_count_at_least(ds: Seq<Decl>, k: Seq<char>, i: int)
    requires
        0 <= i < ds.len(),
        start_flag(ds[i], k),
    ensures
        start_count(ds, k) >= 1,
    decreases ds.len(),
{
    if i == 0 {
        lemma_start_count_nonneg(ds.drop_first(), k);
    } else {
        assert(ds.drop_first()[i - 1] == ds[i]);
        lemma_start_count_at_least(ds.drop_first(), k, i - 1);
    }
}

/// Counts never go negative.
proof fn lemma_start_count_nonneg(ds: Seq<Decl>, k: Seq<char>)
    ensures
        start_count(ds, k) >= 0,
    decreases ds.len(),
{
    if ds.len() > 0 {
        lemma_start_count_nonneg(ds.drop_first(), k);
    }
}

/// *Cardinality*: a module whose declarations carry a start kind zero
/// times or more than once never passes the start parser.
pub proof fn lemma_start_cardinality(ds: Seq<Decl>)
    requires
        start_count(ds, "cold"@) != 1 || start_count(ds, "warm"@) != 1,
    ensures
        !start_content_ok(ds),
{
}

} // verus!
