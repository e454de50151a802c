//! The caller-facing query surface: create a reflection query from a
//! configuration, enumerate what it holds, and destroy it.
//!
//! A query moves through three stages: a fresh value from `SqSpirvQuery::new`
//! holds nothing; a successful `sqCreateReflectQuery` fills it; and
//! `sqDestroyReflectQuery` consumes it, releasing every entry point, variable,
//! type and string it owns at once. Because destruction takes the query by
//! value, a destroyed query cannot be enumerated or destroyed again.
use vstd::prelude::*;

use crate::engine::{reflect_entry_points, reflect_status, reflect_words};
use crate::materialize::{eps_spec, materialize_entry_points, opt_or};
use crate::model::{
    eps_view, lemma_query_view, vars_view, EntryPointView, SqBool32, SqEntryPoint,
    SqReflectConfig, SqResult, SqSpirvQuery, SqVariable,
};
use crate::scan::{
    call_edges_from, check_acyclic, collect_call_edges, rank_acyclic, scan_spec_ops, scan_stream,
    spec_ops_safe_from, wf_stream_from,
};

verus! {

/// Whether a boundary flag is set.
pub open spec fn flag_set(b: SqBool32) -> bool {
    b matches SqBool32::True
}

/// Whether the words pass every flag-independent precheck: they hold a
/// module header, no instruction head has a zero word count, and no
/// specialization-constant operation divides. A module that fails any of
/// these is classified corrupted without consulting the engine.
pub open spec fn precheck_ok(words: Seq<u32>) -> bool {
    crate::header_ok(words) && wf_stream_from(words, 5) && spec_ops_safe_from(words, 5)
}

/// The status that creating a query from the given words and options yields:
/// corrupted when the flag-independent prechecks fail, otherwise the
/// engine's own classification, and unsupported when the engine succeeded but
/// reported a construct the result model does not carry.
pub open spec fn create_status(
    words: Seq<u32>,
    ref_all_rscs: bool,
    combine_img_samplers: bool,
) -> SqResult {
    if !precheck_ok(words) {
        SqResult::ErrorCorruptedSpirv
    } else if reflect_status(words, ref_all_rscs, combine_img_samplers) != SqResult::Success {
        reflect_status(words, ref_all_rscs, combine_img_samplers)
    } else if eps_spec(reflect_entry_points(words, ref_all_rscs, combine_img_samplers)) is None {
        SqResult::ErrorUnsupportedSpirv
    } else {
        SqResult::Success
    }
}

/// The entry points a successfully created query holds: the materialization
/// of what the engine reported for these words and options.
pub open spec fn create_view(
    words: Seq<u32>,
    ref_all_rscs: bool,
    combine_img_samplers: bool,
) -> Seq<EntryPointView> {
    opt_or(
        eps_spec(reflect_entry_points(words, ref_all_rscs, combine_img_samplers)),
        arbitrary(),
    )
}

impl SqSpirvQuery {
    /// A fresh query that holds no entry points yet; the value
    /// `sqCreateReflectQuery` fills on success.
    pub fn new() -> (r: SqSpirvQuery)
        ensures
            r@ == Seq::<EntryPointView>::empty(),
    {
        let r = SqSpirvQuery { entry_points: Vec::new() };
        proof {
            lemma_query_view(&r);
            assert(r@ =~= Seq::<EntryPointView>::empty());
        }
        r
    }
}

/// Creates a reflection query from the caller's configuration.
///
/// On success the query out-parameter holds the materialized entry points;
/// on any error it is left exactly as it was, and the status says which of
/// the two error classes applied. Repeated calls on the same words and
/// options yield the same status and the same entry points.
///
/// Before consulting the engine the words are prechecked: a stream without a
/// plausible header, with a zero-count instruction word, or with a dividing
/// specialization-constant operation is classified corrupted, and so is —
/// when `ref_all_rscs` is off, where the engine walks the call graph — a
/// stream whose function calls form a cycle. For that last flag setting the
/// status is pinned exactly when the module has no function calls or a
/// cyclic graph; an acyclic graph with calls is accepted by a ranking pass
/// whose completeness the tests exercise rather than a proof.
#[allow(non_snake_case)]
pub fn sqCreateReflectQuery(cfg: &SqReflectConfig, query: &mut SqSpirvQuery) -> (r: SqResult)
    ensures
        r != SqResult::Success ==> *final(query) == *old(query),
        r == SqResult::Success ==> create_status(
            cfg.spirv@,
            flag_set(cfg.ref_all_rscs),
            flag_set(cfg.combine_img_samplers),
        ) == SqResult::Success && final(query)@ == create_view(
            cfg.spirv@,
            flag_set(cfg.ref_all_rscs),
            flag_set(cfg.combine_img_samplers),
        ),
        !precheck_ok(cfg.spirv@) ==> r == SqResult::ErrorCorruptedSpirv,
        flag_set(cfg.ref_all_rscs) ==> r == create_status(
            cfg.spirv@,
            true,
            flag_set(cfg.combine_img_samplers),
        ),
        !flag_set(cfg.ref_all_rscs) && call_edges_from(cfg.spirv@, 5, None).len() == 0 ==> r
            == create_status(cfg.spirv@, false, flag_set(cfg.combine_img_samplers)),
        !flag_set(cfg.ref_all_rscs) && !rank_acyclic(call_edges_from(cfg.spirv@, 5, None)) ==> r
            == SqResult::ErrorCorruptedSpirv,
        !flag_set(cfg.ref_all_rscs) ==> (r == create_status(
            cfg.spirv@,
            false,
            flag_set(cfg.combine_img_samplers),
        ) || r == SqResult::ErrorCorruptedSpirv),
{
    if cfg.spirv.len() < 5 {
        return SqResult::ErrorCorruptedSpirv;
    }
    if cfg.spirv[0] != 0x07230203u32 {
        return SqResult::ErrorCorruptedSpirv;
    }
    if !scan_stream(&cfg.spirv) {
        return SqResult::ErrorCorruptedSpirv;
    }
    if !scan_spec_ops(&cfg.spirv) {
        return SqResult::ErrorCorruptedSpirv;
    }
    let ref_all = cfg.ref_all_rscs == SqBool32::True;
    let combine = cfg.combine_img_samplers == SqBool32::True;
    if !ref_all {
        let edges = collect_call_edges(&cfg.spirv);
        if !check_acyclic(&edges) {
            return SqResult::ErrorCorruptedSpirv;
        }
    }
    match reflect_words(&cfg.spirv, ref_all, combine) {
        Err(e) => e,
        Ok(eps) => {
            match materialize_entry_points(&eps) {
                Some(v) => {
                    *query = SqSpirvQuery { entry_points: v };
                    proof {
                        lemma_query_view(query);
                    }
                    SqResult::Success
                },
                None => SqResult::ErrorUnsupportedSpirv,
            }
        },
    }
}

/// The entry points of a created query: a count and a stable borrow of the
/// query-owned list. A pure read: it allocates nothing, changes nothing, and
/// repeated calls on one handle return the same list.
#[allow(non_snake_case)]
pub fn sqEnumerateSpirvEntryPoints<'a>(query: &'a SqSpirvQuery) -> (r: &'a Vec<SqEntryPoint>)
    ensures
        eps_view(*r) == query@,
        r@.len() == query@.len(),
{
    proof {
        lemma_query_view(query);
    }
    &query.entry_points
}

/// The variables of one entry point of a created query, by entry-point
/// index: a stable borrow of the query-owned list, present exactly when the
/// index is in range. A pure read, like the entry-point enumeration.
#[allow(non_snake_case)]
pub fn sqEnumerateSpirvEntryPointVariables<'a>(query: &'a SqSpirvQuery, entry_point: usize) -> (r:
    Option<&'a Vec<SqVariable>>)
    ensures
        r is Some <==> (entry_point as int) < query@.len(),
        (r matches Some(vs) ==> vars_view(*vs) == query@[entry_point as int].vars),
{
    proof {
        lemma_query_view(query);
    }
    if entry_point < query.entry_points.len() {
        Some(&query.entry_points[entry_point].vars)
    } else {
        None
    }
}

/// Destroys a created query, releasing everything it owns at once.
///
/// The query is taken by value: destroying it exactly once is enforced by
/// ownership, a destroyed query cannot be used again, and no other query is
/// touched.
#[allow(non_snake_case)]
pub fn sqDestroyReflectQuery(query: SqSpirvQuery) {
    let _ = query;
}

/// Input too short to hold a module header is classified corrupted, whatever
/// the option flags, and thus never yields a query.
pub proof fn lemma_truncated_is_corrupted(
    words: Seq<u32>,
    ref_all_rscs: bool,
    combine_img_samplers: bool,
)
    requires
        words.len() < 5,
    ensures
        create_status(words, ref_all_rscs, combine_img_samplers)
            == SqResult::ErrorCorruptedSpirv,
{
}

/// What a created query holds — and therefore what its enumerations return —
/// matches the engine's report entry point for entry point: same count, same
/// names, same variable counts, in the same order.
pub proof fn lemma_created_query_matches_engine(
    words: Seq<u32>,
    ref_all_rscs: bool,
    combine_img_samplers: bool,
)
    requires
        create_status(words, ref_all_rscs, combine_img_samplers) == SqResult::Success,
    ensures
        ({
            let eng = reflect_entry_points(words, ref_all_rscs, combine_img_samplers);
            let v = create_view(words, ref_all_rscs, combine_img_samplers);
            v.len() == eng.len() && (forall|i: int|
                0 <= i < eng.len() ==> v[i].name == eng[i].name@ && v[i].vars.len()
                    == eng[i].vars@.len())
        }),
{
    crate::materialize::lemma_materialize_preserves_names(
        reflect_entry_points(words, ref_all_rscs, combine_img_samplers),
    );
}

/// A query is created exactly when the engine reports success and every
/// reported construct can be carried by the result model.
pub proof fn lemma_create_success_iff(
    words: Seq<u32>,
    ref_all_rscs: bool,
    combine_img_samplers: bool,
)
    ensures
        create_status(words, ref_all_rscs, combine_img_samplers) == SqResult::Success
            <==> (precheck_ok(words) && reflect_status(words, ref_all_rscs, combine_img_samplers)
            == SqResult::Success && eps_spec(
            reflect_entry_points(words, ref_all_rscs, combine_img_samplers),
        ) is Some),
{
}

} // verus!
