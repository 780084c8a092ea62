//! Where the rows of an output come from while cache aliases are active.

use datafusion::arrow::datatypes::Schema;
use datafusion::prelude::DataFrame;
use vstd::prelude::*;

use crate::cache_laws::{cached_aliases_are_shared, registered_as};
use crate::cache_plan::{
    AliasPlanView, DecisionView, KnownTables, MssqlDerivedCacheAliasPlan, MssqlOutputCachePlan,
    cache_output_uses_registered_derived, output_cache_plan, plan_mssql_output_cache, uses,
};
use crate::engine::{dataframe_schema, same_schema, schema_fields, schema_of, schemas_agree};
use crate::errors::{
    DeltaFunnelError, ErrorView, cached_output_stream_setup, cached_output_stream_setup_error,
    unknown_cached_alias, unknown_cached_alias_error,
};
use crate::handles::{LazyTableView, OutputWritePlan, OutputWritePlanView};
use crate::registry::{DerivedView, derived_has_id};
use crate::report::{views, views_push};
use crate::search::{
    first_match, first_position, first_position_facts, first_position_is, first_position_is_none,
};
use crate::session::{DeltaFunnelSession, SessionView};

verus! {

/// The derived tables of a session.
pub open spec fn known_tables(session: SessionView) -> KnownTables {
    KnownTables { derived: session.derived, pending: session.pending }
}

/// What a route says.
pub enum RouteView {
    DirectCachedAlias(AliasPlanView),
    ReplannedCachedDependency(Seq<AliasPlanView>),
    UncachedLazyTable,
}

/// Stream construction route for one output while cache aliases are active.
#[derive(PartialEq, Eq)]
pub enum MssqlCachedOutputStreamRoute {
    /// The selected output table is itself an active cached alias.
    DirectCachedAlias(MssqlDerivedCacheAliasPlan),
    /// The selected output depends on one or more active cached aliases.
    ReplannedCachedDependency(Vec<MssqlDerivedCacheAliasPlan>),
    /// The selected output does not use any active cached alias.
    UncachedLazyTable,
}

impl View for MssqlCachedOutputStreamRoute {
    type V = RouteView;

    open spec fn view(&self) -> RouteView {
        match *self {
            MssqlCachedOutputStreamRoute::DirectCachedAlias(alias) => RouteView::DirectCachedAlias(
                alias@,
            ),
            MssqlCachedOutputStreamRoute::ReplannedCachedDependency(aliases) => {
                RouteView::ReplannedCachedDependency(views(aliases@))
            },
            MssqlCachedOutputStreamRoute::UncachedLazyTable => RouteView::UncachedLazyTable,
        }
    }
}

/// An alias whose table is not registered.
pub open spec fn alias_is_unknown(derived: Seq<DerivedView>) -> spec_fn(AliasPlanView) -> bool {
    |alias: AliasPlanView| first_position(derived, derived_has_id(alias.table_id)) is None
}

/// An alias of the table with an id.
pub open spec fn alias_has_table(id: u64) -> spec_fn(AliasPlanView) -> bool {
    |alias: AliasPlanView| alias.table_id == id
}

/// The aliases, among the first `n`, that a table uses.
pub open spec fn used_aliases(
    known: KnownTables,
    table: LazyTableView,
    aliases: Seq<AliasPlanView>,
    n: nat,
) -> Seq<AliasPlanView>
    decreases n,
{
    if n == 0 {
        seq![]
    } else {
        let before = used_aliases(known, table, aliases, (n - 1) as nat);
        if uses(known, table, aliases[n - 1].table_id) {
            before.push(aliases[n - 1])
        } else {
            before
        }
    }
}

/// The route for an output: the cache of its own table, else a new plan over the caches that
/// it uses, else its ordinary rows. An alias that is not registered is rejected first.
pub open spec fn cached_route(
    session: SessionView,
    output: OutputWritePlanView,
    aliases: Seq<AliasPlanView>,
) -> Result<RouteView, ErrorView> {
    match first_match(aliases, alias_is_unknown(session.derived)) {
        Some(alias) => Err(unknown_cached_alias(alias.alias)),
        None => match first_match(aliases, alias_has_table(output.table.id)) {
            Some(alias) => Ok(RouteView::DirectCachedAlias(alias)),
            None => {
                let used = used_aliases(known_tables(session), output.table, aliases, aliases.len());
                if used.len() == 0 {
                    Ok(RouteView::UncachedLazyTable)
                } else {
                    Ok(RouteView::ReplannedCachedDependency(used))
                }
            },
        },
    }
}

impl DeltaFunnelSession {
    /// Decides which registered aliases are cached while some outputs are written.
    pub fn plan_mssql_output_cache(&self, requests: &Vec<OutputWritePlan>) -> (r:
        MssqlOutputCachePlan)
        ensures
            r@ == output_cache_plan(known_tables(self@), views(requests@)),
    {
        plan_mssql_output_cache(self.derived_tables(), self.pending_derived_tables(), requests)
    }

    /// Finds the position of the first alias whose table is not registered.
    fn first_unknown_alias(&self, aliases: &Vec<MssqlDerivedCacheAliasPlan>) -> (r: Option<usize>)
        ensures
            match r {
                Some(i) => i < aliases.len() && first_position(
                    views(aliases@),
                    alias_is_unknown(self@.derived),
                ) == Some(i as int),
                None => first_position(views(aliases@), alias_is_unknown(self@.derived)) is None,
            },
    {
        let ghost all = views(aliases@);
        let ghost unknown = alias_is_unknown(self@.derived);
        let mut i: usize = 0;
        while i < aliases.len()
            invariant
                i <= aliases.len(),
                all == views(aliases@),
                unknown == alias_is_unknown(self@.derived),
                forall|j: int| 0 <= j < i ==> !unknown(#[trigger] all[j]),
            decreases aliases.len() - i,
        {
            assert(all[i as int] == aliases@[i as int]@);
            if self.registered_derived_table_by_id(aliases[i].table_id()).is_none() {
                proof {
                    first_position_is(all, unknown, i as int);
                }
                return Some(i);
            }
            i += 1;
        }
        proof {
            first_position_is_none(all, unknown);
        }
        None
    }

    /// Classifies how one output is read while cache aliases are active.
    pub fn cached_output_stream_route(
        &self,
        output: &OutputWritePlan,
        aliases: &Vec<MssqlDerivedCacheAliasPlan>,
    ) -> (r: Result<MssqlCachedOutputStreamRoute, DeltaFunnelError>)
        ensures
            match cached_route(self@, output@, views(aliases@)) {
                Ok(route) => r matches Ok(found) && found@ == route,
                Err(problem) => r matches Err(e) && e@ == problem,
            },
    {
        let ghost all = views(aliases@);
        let ghost known = known_tables(self@);
        match self.first_unknown_alias(aliases) {
            Some(i) => {
                assert(all[i as int] == aliases@[i as int]@);
                return Err(unknown_cached_alias_error(aliases[i].alias()));
            },
            None => {},
        }
        let id: u64 = output.table().id();
        let ghost direct = alias_has_table(id);
        let mut used: Vec<MssqlDerivedCacheAliasPlan> = Vec::new();
        let mut i: usize = 0;
        assert(views(used@) =~= used_aliases(known, output@.table, all, 0));
        while i < aliases.len()
            invariant
                i <= aliases.len(),
                all == views(aliases@),
                known == known_tables(self@),
                id == output@.table.id,
                direct == alias_has_table(id),
                first_position(all, alias_is_unknown(self@.derived)) is None,
                forall|j: int| 0 <= j < i ==> !direct(#[trigger] all[j]),
                views(used@) == used_aliases(known, output@.table, all, i as nat),
            decreases aliases.len() - i,
        {
            let alias = &aliases[i];
            assert(all[i as int] == alias@);
            if alias.table_id() == id {
                proof {
                    first_position_is(all, direct, i as int);
                }
                return Ok(MssqlCachedOutputStreamRoute::DirectCachedAlias(alias.clone()));
            }
            if cache_output_uses_registered_derived(
                self.derived_tables(),
                self.pending_derived_tables(),
                output.table(),
                alias.table_id(),
            ) {
                let copy = alias.clone();
                proof {
                    views_push(used@, copy);
                }
                used.push(copy);
            }
            i += 1;
        }
        proof {
            first_position_is_none(all, direct);
        }
        assert(views(used@).len() == used.len());
        if used.len() == 0 {
            Ok(MssqlCachedOutputStreamRoute::UncachedLazyTable)
        } else {
            Ok(MssqlCachedOutputStreamRoute::ReplannedCachedDependency(used))
        }
    }
}

/// Takes up the new plan of an output over active caches: it is used only when it produces the
/// columns of the output.
pub fn replanned_output(
    output_name: &str,
    expected: &Schema,
    replanned: Result<DataFrame, String>,
) -> (r: Result<DataFrame, DeltaFunnelError>)
    ensures
        match replanned {
            Err(message) => r matches Err(e) && e@ == cached_output_stream_setup(
                output_name@,
                message@,
            ),
            Ok(dataframe) => if schemas_agree(dataframe_schema(dataframe), *expected) {
                &&& r == Ok::<DataFrame, DeltaFunnelError>(dataframe)
                &&& schema_fields(dataframe_schema(dataframe)) == schema_fields(*expected)
            } else {
                r matches Err(e) && e@ == cached_output_stream_setup(
                    output_name@,
                    "replanned output schema does not match"@,
                )
            },
        },
        replanned matches Ok(dataframe) && dataframe_schema(dataframe) == *expected ==> r is Ok,
{
    match replanned {
        Err(message) => Err(cached_output_stream_setup_error(output_name, message.as_str())),
        Ok(dataframe) => {
            let schema = schema_of(&dataframe);
            if same_schema(&schema, expected) {
                Ok(dataframe)
            } else {
                Err(
                    cached_output_stream_setup_error(
                        output_name,
                        "replanned output schema does not match",
                    ),
                )
            }
        },
    }
}

proof fn used_aliases_are_used(
    known: KnownTables,
    table: LazyTableView,
    aliases: Seq<AliasPlanView>,
    n: nat,
)
    requires
        n <= aliases.len(),
    ensures
        forall|k: int|
            0 <= k < used_aliases(known, table, aliases, n).len() ==> {
                let alias = #[trigger] used_aliases(known, table, aliases, n)[k];
                aliases.contains(alias) && uses(known, table, alias.table_id)
            },
        forall|k: int|
            0 <= k < n && uses(known, table, (#[trigger] aliases[k]).table_id) ==> used_aliases(
                known,
                table,
                aliases,
                n,
            ).contains(aliases[k]),
    decreases n,
{
    if n > 0 {
        let m = (n - 1) as nat;
        used_aliases_are_used(known, table, aliases, m);
        let before = used_aliases(known, table, aliases, m);
        let after = used_aliases(known, table, aliases, n);
        assert forall|k: int| 0 <= k < after.len() implies aliases.contains(#[trigger] after[k])
            && uses(known, table, after[k].table_id) by {
            if k < before.len() {
                assert(after[k] == before[k]);
            } else {
                assert(after[k] == aliases[n - 1]);
            }
        }
        assert forall|k: int|
            0 <= k < n && uses(known, table, (#[trigger] aliases[k]).table_id) implies after.contains(
            aliases[k],
        ) by {
            if k < m {
                assert(before.contains(aliases[k]));
                let at = choose|at: int| 0 <= at < before.len() && before[at] == aliases[k];
                assert(after[at] == aliases[k]);
            } else {
                assert(after[after.len() - 1] == aliases[k]);
            }
        }
    }
}

/// An output that uses an active cache alias is never read past the caches, and one that uses
/// none is never read through them.
pub proof fn cache_users_read_the_caches(
    session: SessionView,
    output: OutputWritePlanView,
    aliases: Seq<AliasPlanView>,
)
    requires
        cached_route(session, output, aliases) is Ok,
    ensures
        cached_route(session, output, aliases) == Ok::<RouteView, ErrorView>(
            RouteView::UncachedLazyTable,
        ) <==> (forall|k: int|
            0 <= k < aliases.len() ==> !uses(
                known_tables(session),
                output.table,
                (#[trigger] aliases[k]).table_id,
            )),
{
    let known = known_tables(session);
    let direct = alias_has_table(output.table.id);
    let used = used_aliases(known, output.table, aliases, aliases.len());
    used_aliases_are_used(known, output.table, aliases, aliases.len());
    first_position_facts(aliases, direct);
    match first_position(aliases, direct) {
        Some(i) => {
            assert(uses(known, output.table, aliases[i].table_id));
        },
        None => {
            if used.len() > 0 {
                let alias = used[0];
                assert(aliases.contains(alias) && uses(known, output.table, alias.table_id));
                let k = choose|k: int| 0 <= k < aliases.len() && aliases[k] == alias;
                assert(uses(known, output.table, aliases[k].table_id));
            } else {
                assert forall|k: int| 0 <= k < aliases.len() implies !uses(
                    known,
                    output.table,
                    (#[trigger] aliases[k]).table_id,
                ) by {
                    if uses(known, output.table, aliases[k].table_id) {
                        assert(used.contains(aliases[k]));
                    }
                }
            }
        },
    }
}

/// While the planned caches are active every output has a route, and an output that a cached
/// alias is listed for is read through a cache.
pub proof fn planned_caches_serve_their_outputs(
    session: SessionView,
    requests: Seq<OutputWritePlanView>,
    i: int,
    k: usize,
)
    requires
        requests.len() <= usize::MAX,
        output_cache_plan(known_tables(session), requests).decision matches DecisionView::CacheAliases(
            aliases,
        ) && 0 <= i < aliases.len() && aliases[i].output_indexes.contains(k),
    ensures
        k < requests.len(),
        ({
            let aliases = output_cache_plan(
                known_tables(session),
                requests,
            ).decision->CacheAliases_0;
            cached_route(session, requests[k as int], aliases) matches Ok(route) && !(
            route is UncachedLazyTable)
        }),
{
    let known = known_tables(session);
    let aliases = output_cache_plan(known, requests).decision->CacheAliases_0;
    cached_aliases_are_shared(known, requests, i);
    let unknown = alias_is_unknown(session.derived);
    assert forall|j: int| 0 <= j < aliases.len() implies !unknown(#[trigger] aliases[j]) by {
        cached_aliases_are_shared(known, requests, j);
        let d = choose|d: int|
            0 <= d < known.derived.len() && registered_as(#[trigger] known.derived[d], aliases[j]);
        first_position_facts(session.derived, derived_has_id(aliases[j].table_id));
        assert(session.derived[d].table.id == aliases[j].table_id);
    }
    first_position_is_none(aliases, unknown);
    cache_users_read_the_caches(session, requests[k as int], aliases);
    assert(uses(known, requests[k as int].table, aliases[i].table_id));
}

} // verus!
