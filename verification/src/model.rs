//! The partition model builder: collects all descriptors of a partition
//! module into one immutable model, enforcing the cross-item constraints.

use vstd::prelude::*;
use crate::decl::{spec_find_field, spec_remove_attrs, Attr, BuildError, Decl};
use crate::parse::channel::{
    channels_match_decls, decl_channel_ok, spec_passthrough_decls, Channel,
};
use crate::parse::process::{decl_process_ok, process_decl_stripped, procs_match_decls, Process};
use crate::parse::start::{start_content_ok, start_count, start_flag, Start};

verus! {

/// A partition module as handed to the builder: its identifier and its
/// declarations.
#[derive(Debug, PartialEq, Eq)]
pub struct Module {
    pub ident: String,
    pub items: Vec<Decl>,
}

/// The validated partition model: the hypervisor path, the channel and
/// process descriptors, and the start pair. Built once per partition
/// module and consumed by the code generator.
#[derive(Debug, PartialEq, Eq)]
pub struct PartitionModel {
    /// the partition module's identifier
    pub name: String,
    /// the path of the hypervisor the scaffolding binds to
    pub hypervisor: String,
    pub channel: Vec<Channel>,
    pub processes: Vec<Process>,
    pub start: Start,
}

/// Removing attributes of one name leaves lookups under any other name
/// unchanged.
proof fn lemma_find_field_remove_other(
    attrs: Seq<Attr>,
    removed: Seq<char>,
    marker: Seq<char>,
    key: Seq<char>,
)
    requires
        removed != marker,
    ensures
        spec_find_field(spec_remove_attrs(attrs, removed), marker, key) == spec_find_field(
            attrs,
            marker,
            key,
        ),
    decreases attrs.len(),
{
    reveal_with_fuel(spec_find_field, 2);
    reveal_with_fuel(spec_remove_attrs, 2);
    if attrs.len() > 0 {
        lemma_find_field_remove_other(attrs.drop_first(), removed, marker, key);
        if attrs[0].name@ == removed {
            assert(spec_remove_attrs(attrs, removed) == spec_remove_attrs(
                attrs.drop_first(),
                removed,
            ));
        } else {
            let rest = spec_remove_attrs(attrs.drop_first(), removed);
            assert(spec_remove_attrs(attrs, removed) =~= seq![attrs[0]] + rest);
            let whole = seq![attrs[0]] + rest;
            assert(whole[0] == attrs[0]);
            assert(whole.drop_first() =~= rest);
        }
    } else {
        assert(spec_remove_attrs(attrs, removed) =~= Seq::<Attr>::empty());
    }
}

/// Consuming the process markers leaves every start-related judgement on
/// a declaration unchanged.
proof fn lemma_start_facts_stripped(nd: Decl, od: Decl)
    requires
        process_decl_stripped(nd, od),
    ensures
        start_flag(nd, "cold"@) == start_flag(od, "cold"@),
        start_flag(nd, "warm"@) == start_flag(od, "warm"@),
        crate::parse::start::decl_start_ok(nd) == crate::parse::start::decl_start_ok(od),
        nd.ident == od.ident,
{
    reveal_strlit("aperiodic");
    reveal_strlit("periodic");
    reveal_strlit("start");
    assert(("aperiodic"@).len() == 9);
    assert(("periodic"@).len() == 8);
    assert(("start"@).len() == 5);
    assert("aperiodic"@ != "start"@);
    assert("periodic"@ != "start"@);
    if crate::parse::process::is_process_decl(od) {
        lemma_find_field_remove_other(od.attrs@, "aperiodic"@, "start"@, "cold"@);
        lemma_find_field_remove_other(od.attrs@, "aperiodic"@, "start"@, "warm"@);
        lemma_find_field_remove_other(
            spec_remove_attrs(od.attrs@, "aperiodic"@),
            "periodic"@,
            "start"@,
            "cold"@,
        );
        lemma_find_field_remove_other(
            spec_remove_attrs(od.attrs@, "aperiodic"@),
            "periodic"@,
            "start"@,
            "warm"@,
        );
    }
}

/// Consuming the process markers leaves the start counts of a module
/// unchanged.
proof fn lemma_start_count_stripped(nds: Seq<Decl>, ods: Seq<Decl>, k: Seq<char>)
    requires
        nds.len() == ods.len(),
        forall|j: int| 0 <= j < ods.len() ==> process_decl_stripped(#[trigger] nds[j], ods[j]),
        k == "cold"@ || k == "warm"@,
    ensures
        start_count(nds, k) == start_count(ods, k),
    decreases ods.len(),
{
    if ods.len() > 0 {
        lemma_start_facts_stripped(nds[0], ods[0]);
        assert(forall|j: int|
            0 <= j < ods.drop_first().len() ==> process_decl_stripped(
                #[trigger] nds.drop_first()[j],
                ods.drop_first()[j],
            ));
        lemma_start_count_stripped(nds.drop_first(), ods.drop_first(), k);
    }
}

/// Consuming the process markers leaves the whole start judgement of a
/// module unchanged.
proof fn lemma_start_content_stripped(nds: Seq<Decl>, ods: Seq<Decl>)
    requires
        nds.len() == ods.len(),
        forall|j: int| 0 <= j < ods.len() ==> process_decl_stripped(#[trigger] nds[j], ods[j]),
    ensures
        start_content_ok(nds) == start_content_ok(ods),
{
    lemma_start_count_stripped(nds, ods, "cold"@);
    lemma_start_count_stripped(nds, ods, "warm"@);
    if start_content_ok(ods) {
        assert forall|i: int| 0 <= i < nds.len() implies crate::parse::start::decl_start_ok(
            #[trigger] nds[i],
        ) by {
            lemma_start_facts_stripped(nds[i], ods[i]);
        }
        assert(start_content_ok(nds));
    }
    if start_content_ok(nds) {
        assert forall|i: int| 0 <= i < ods.len() implies crate::parse::start::decl_start_ok(
            #[trigger] ods[i],
        ) by {
            lemma_start_facts_stripped(nds[i], ods[i]);
        }
        assert(start_content_ok(ods));
    }
}

impl PartitionModel {
    /// Collects the channel and process descriptors and the start pair of
    /// a partition module. The channel structs are consumed; process and
    /// start functions stay, with their marker attributes consumed; other
    /// declarations pass through untouched. Any error aborts the build
    /// with every error of the failing stage reported.
    pub fn from_mod(hypervisor: String, module: &mut Module) -> (r: Result<
        PartitionModel,
        Vec<BuildError>,
    >)
        ensures
            r is Ok <==> ((forall|i: int|
                0 <= i < old(module).items@.len() ==> decl_channel_ok(
                    #[trigger] old(module).items@[i],
                )) && (forall|i: int|
                0 <= i < spec_passthrough_decls(old(module).items@).len() ==> decl_process_ok(
                    #[trigger] spec_passthrough_decls(old(module).items@)[i],
                )) && start_content_ok(spec_passthrough_decls(old(module).items@))),
            r matches Ok(m) ==> ({
                let pp = spec_passthrough_decls(old(module).items@);
                &&& m.name == old(module).ident
                &&& m.hypervisor == hypervisor
                &&& channels_match_decls(m.channel@, old(module).items@)
                &&& procs_match_decls(m.processes@, pp)
                &&& m.start.cold_index < pp.len()
                &&& start_flag(pp[m.start.cold_index as int], "cold"@)
                &&& m.start.cold_ident == pp[m.start.cold_index as int].ident
                &&& m.start.warm_index < pp.len()
                &&& start_flag(pp[m.start.warm_index as int], "warm"@)
                &&& m.start.warm_ident == pp[m.start.warm_index as int].ident
            }),
            r matches Err(errs) ==> errs@.len() > 0,
    {
        let channel = match Channel::from_content(&mut module.items) {
            Ok(chs) => chs,
            Err(errs) => {
                return Err(errs);
            },
        };
        let ghost pp = module.items@;
        let processes = match Process::from_content(&mut module.items) {
            Ok(ps) => ps,
            Err(errs) => {
                return Err(errs);
            },
        };
        let ghost stripped = module.items@;
        let start = match Start::from_content(&mut module.items) {
            Ok(s) => s,
            Err(errs) => {
                proof {
                    lemma_start_content_stripped(stripped, pp);
                }
                return Err(errs);
            },
        };
        proof {
            lemma_start_content_stripped(stripped, pp);
            lemma_start_facts_stripped(
                stripped[start.cold_index as int],
                pp[start.cold_index as int],
            );
            lemma_start_facts_stripped(
                stripped[start.warm_index as int],
                pp[start.warm_index as int],
            );
        }
        let name = crate::decl::clone_string(&module.ident);
        Ok(PartitionModel { name, hypervisor, channel, processes, start })
    }
}

} // verus!
