//! Which derived aliases are worth caching while several outputs are written.

use vstd::prelude::*;
use vstd::string::StringExecFns;

use crate::dependencies::{depends_on, holds, reached_derived_ids};
use crate::handles::{
    LazyTable, LazyTableKind, LazyTableView, OutputWritePlan, OutputWritePlanView,
};
use crate::lineage::LineageView;
use crate::registry::{
    DerivedView, PendingDerivedTable, PendingView, RegisteredDerivedTable, derived_has_id,
    find_derived_by_id, find_pending_by_id, pending_has_id,
};
use crate::report::{views, views_push};
use crate::search::first_match;
use crate::target::{quoted, quoted_text};
use crate::text::{
    blank, decimal, decimal_text, display_text, is_blank, listed, listed_text,
    sanitize_text_for_display,
};

verus! {

/// What a selected output says.
pub struct CachePlanOutputView {
    pub index: usize,
    pub table_id: u64,
    pub table_name: Seq<char>,
    pub output_name: Seq<char>,
}

/// Selected output identity captured for cache planning.
#[derive(PartialEq, Eq)]
pub struct MssqlOutputCachePlanOutput {
    index: usize,
    table_id: u64,
    table_name: String,
    output_name: String,
}

impl View for MssqlOutputCachePlanOutput {
    type V = CachePlanOutputView;

    closed spec fn view(&self) -> CachePlanOutputView {
        CachePlanOutputView {
            index: self.index,
            table_id: self.table_id,
            table_name: self.table_name@,
            output_name: self.output_name@,
        }
    }
}

/// The selected output for a request at a position.
pub open spec fn plan_output(index: int, request: OutputWritePlanView) -> CachePlanOutputView {
    CachePlanOutputView {
        index: index as usize,
        table_id: request.table.id,
        table_name: request.table.name,
        output_name: request.target.output_name,
    }
}

/// The debug form of a selected output.
pub open spec fn plan_output_debug(output: CachePlanOutputView) -> Seq<char> {
    "MssqlOutputCachePlanOutput { index: "@ + decimal(output.index as nat) + ", table_id: "@
        + decimal(output.table_id as nat) + ", table_name: "@ + quoted_text(
        display_text(output.table_name),
    ) + ", output_name: "@ + quoted_text(display_text(output.output_name)) + " }"@
}

impl MssqlOutputCachePlanOutput {
    /// Captures the identity of a request.
    pub fn from_request(index: usize, request: &OutputWritePlan) -> (r: Self)
        ensures
            r@ == plan_output(index as int, request@),
    {
        MssqlOutputCachePlanOutput {
            index,
            table_id: request.table().id(),
            table_name: request.table().name().to_owned(),
            output_name: request.target().output_name().to_owned(),
        }
    }

    /// Returns the output index from the caller-provided request list.
    pub fn index(&self) -> (r: usize)
        ensures
            r == self@.index,
    {
        self.index
    }

    /// Returns the selected lazy table id.
    pub fn table_id(&self) -> (r: u64)
        ensures
            r == self@.table_id,
    {
        self.table_id
    }

    /// Returns the selected lazy table name.
    pub fn table_name(&self) -> (r: &str)
        ensures
            r@ == self@.table_name,
    {
        self.table_name.as_str()
    }

    /// Returns the selected output name.
    pub fn output_name(&self) -> (r: &str)
        ensures
            r@ == self@.output_name,
    {
        self.output_name.as_str()
    }

    /// Returns the debug form.
    pub fn debug_text(&self) -> (r: String)
        ensures
            r@ == plan_output_debug(self@),
    {
        let mut r = "MssqlOutputCachePlanOutput { index: ".to_owned();
        r.append(decimal_text(self.index as u64).as_str());
        r.append(", table_id: ");
        r.append(decimal_text(self.table_id).as_str());
        r.append(", table_name: ");
        let shown = sanitize_text_for_display(self.table_name.as_str());
        r.append(quoted(shown.as_str()).as_str());
        r.append(", output_name: ");
        let shown = sanitize_text_for_display(self.output_name.as_str());
        r.append(quoted(shown.as_str()).as_str());
        r.append(" }");
        r
    }
}

/// What a planned cache alias says.
pub struct AliasPlanView {
    pub table_id: u64,
    pub alias: Seq<char>,
    pub output_indexes: Seq<usize>,
}

/// Selected registered derived alias cache candidate.
#[derive(PartialEq, Eq)]
pub struct MssqlDerivedCacheAliasPlan {
    table_id: u64,
    alias: String,
    output_indexes: Vec<usize>,
}

impl View for MssqlDerivedCacheAliasPlan {
    type V = AliasPlanView;

    closed spec fn view(&self) -> AliasPlanView {
        AliasPlanView {
            table_id: self.table_id,
            alias: self.alias@,
            output_indexes: self.output_indexes@,
        }
    }
}

impl Clone for MssqlDerivedCacheAliasPlan {
    fn clone(&self) -> (r: Self)
        ensures
            r@ == self@,
    {
        let mut output_indexes: Vec<usize> = Vec::new();
        let mut i: usize = 0;
        while i < self.output_indexes.len()
            invariant
                i <= self.output_indexes.len(),
                output_indexes@ == self.output_indexes@.take(i as int),
            decreases self.output_indexes.len() - i,
        {
            output_indexes.push(self.output_indexes[i]);
            i += 1;
            assert(self.output_indexes@.take(i as int) =~= self.output_indexes@.take(i - 1).push(
                self.output_indexes@[i - 1],
            ));
        }
        assert(self.output_indexes@.take(self.output_indexes.len() as int)
            =~= self.output_indexes@);
        MssqlDerivedCacheAliasPlan {
            table_id: self.table_id,
            alias: self.alias.clone(),
            output_indexes,
        }
    }
}

/// The decimal numerals of some numbers.
pub open spec fn decimals(numbers: Seq<usize>) -> Seq<Seq<char>> {
    Seq::new(numbers.len(), |i: int| decimal(numbers[i] as nat))
}

/// The debug form of a planned cache alias.
pub open spec fn alias_plan_debug(alias: AliasPlanView) -> Seq<char> {
    "MssqlDerivedCacheAliasPlan { table_id: "@ + decimal(alias.table_id as nat) + ", alias: "@
        + quoted_text(display_text(alias.alias)) + ", output_indexes: "@ + listed(
        decimals(alias.output_indexes),
    ) + " }"@
}

impl MssqlDerivedCacheAliasPlan {
    /// Plans the cache of an alias for some outputs.
    pub fn new(table_id: u64, alias: String, output_indexes: Vec<usize>) -> (r: Self)
        ensures
            r@ == (AliasPlanView { table_id, alias: alias@, output_indexes: output_indexes@ }),
    {
        MssqlDerivedCacheAliasPlan { table_id, alias, output_indexes }
    }

    /// Plans the cache of a registered alias for some outputs.
    pub fn from_registered(derived: &RegisteredDerivedTable, output_indexes: Vec<usize>) -> (r: Self)
        ensures
            r@ == (AliasPlanView {
                table_id: derived@.table.id,
                alias: derived@.table.name,
                output_indexes: output_indexes@,
            }),
    {
        MssqlDerivedCacheAliasPlan {
            table_id: derived.table().id(),
            alias: derived.name().to_owned(),
            output_indexes,
        }
    }

    /// Returns the selected registered derived table id.
    pub fn table_id(&self) -> (r: u64)
        ensures
            r == self@.table_id,
    {
        self.table_id
    }

    /// Returns the selected registered derived alias.
    pub fn alias(&self) -> (r: &str)
        ensures
            r@ == self@.alias,
    {
        self.alias.as_str()
    }

    /// Returns selected output indexes that use this alias.
    pub fn output_indexes(&self) -> (r: &Vec<usize>)
        ensures
            r@ == self@.output_indexes,
    {
        &self.output_indexes
    }

    /// Returns the debug form.
    pub fn debug_text(&self) -> (r: String)
        ensures
            r@ == alias_plan_debug(self@),
    {
        let mut r = "MssqlDerivedCacheAliasPlan { table_id: ".to_owned();
        r.append(decimal_text(self.table_id).as_str());
        r.append(", alias: ");
        let shown = sanitize_text_for_display(self.alias.as_str());
        r.append(quoted(shown.as_str()).as_str());
        r.append(", output_indexes: ");
        let mut numerals: Vec<String> = Vec::new();
        let ghost wanted = decimals(self.output_indexes@);
        let mut i: usize = 0;
        assert(views(numerals@) =~= wanted.take(0));
        while i < self.output_indexes.len()
            invariant
                i <= self.output_indexes.len(),
                wanted == decimals(self.output_indexes@),
                views(numerals@) == wanted.take(i as int),
            decreases self.output_indexes.len() - i,
        {
            let numeral = decimal_text(self.output_indexes[i] as u64);
            proof {
                views_push(numerals@, numeral);
                assert(wanted.take(i + 1) =~= wanted.take(i as int).push(numeral@));
            }
            numerals.push(numeral);
            i += 1;
        }
        assert(wanted.take(self.output_indexes.len() as int) =~= wanted);
        r.append(listed_text(&numerals).as_str());
        r.append(" }");
        r
    }
}

/// Conservative reason no cache alias was selected.
#[derive(Debug, Clone, Copy, PartialEq, Eq, Structural)]
pub enum MssqlNoCacheReason {
    /// Cache selection only helps when at least two outputs use a candidate.
    FewerThanTwoOutputs,
    /// No registered derived alias is shared by at least two selected outputs.
    NoSharedRegisteredDerivedAlias,
    /// Candidate relationships could not produce a deterministic cache frontier.
    AmbiguousSharedDerivedAlias,
}

impl MssqlNoCacheReason {
    /// The name of the reason.
    pub open spec fn name_of(self) -> Seq<char> {
        match self {
            MssqlNoCacheReason::FewerThanTwoOutputs => "FewerThanTwoOutputs"@,
            MssqlNoCacheReason::NoSharedRegisteredDerivedAlias => "NoSharedRegisteredDerivedAlias"@,
            MssqlNoCacheReason::AmbiguousSharedDerivedAlias => "AmbiguousSharedDerivedAlias"@,
        }
    }

    /// Returns the name of the reason.
    pub fn as_str(&self) -> (r: &'static str)
        ensures
            r@ == self.name_of(),
    {
        match self {
            MssqlNoCacheReason::FewerThanTwoOutputs => "FewerThanTwoOutputs",
            MssqlNoCacheReason::NoSharedRegisteredDerivedAlias => "NoSharedRegisteredDerivedAlias",
            MssqlNoCacheReason::AmbiguousSharedDerivedAlias => "AmbiguousSharedDerivedAlias",
        }
    }
}

/// What a cache decision says.
pub enum DecisionView {
    NoCache { reason: MssqlNoCacheReason },
    CacheAliases(Seq<AliasPlanView>),
}

/// Cache decision for one `write_all` cache-selection pass.
#[derive(PartialEq, Eq)]
pub enum MssqlOutputCacheDecision {
    /// No safe shared cache candidate was selected.
    NoCache { reason: MssqlNoCacheReason },
    /// The cache frontier: eligible shared derived aliases that are not covered by any deeper
    /// eligible shared alias.
    CacheAliases(Vec<MssqlDerivedCacheAliasPlan>),
}

impl View for MssqlOutputCacheDecision {
    type V = DecisionView;

    open spec fn view(&self) -> DecisionView {
        match *self {
            MssqlOutputCacheDecision::NoCache { reason } => DecisionView::NoCache { reason },
            MssqlOutputCacheDecision::CacheAliases(aliases) => DecisionView::CacheAliases(
                views(aliases@),
            ),
        }
    }
}

/// Reason a candidate was not eligible for cache selection.
#[derive(Debug, Clone, Copy, PartialEq, Eq, Structural)]
pub enum MssqlCacheCandidateSkipReason {
    /// Fewer than two selected outputs use this candidate.
    NotShared { output_count: usize },
    /// Retained SQL text was missing, so later replanning would be unsafe.
    MissingSqlText,
    /// Lineage was incomplete or could not be trusted.
    IncompleteLineage,
    /// A deeper shared alias is closer to all dependent outputs.
    CoveredByDeeperSharedAlias { selected_table_id: u64 },
    /// The candidate's relative depth could not be ordered deterministically.
    AmbiguousDepth,
}

/// What a skipped candidate says.
pub struct SkipView {
    pub table_id: u64,
    pub alias: Seq<char>,
    pub reason: MssqlCacheCandidateSkipReason,
}

/// Candidate skipped during conservative cache selection.
#[derive(PartialEq, Eq)]
pub struct MssqlCacheCandidateSkip {
    table_id: u64,
    alias: String,
    reason: MssqlCacheCandidateSkipReason,
}

impl View for MssqlCacheCandidateSkip {
    type V = SkipView;

    closed spec fn view(&self) -> SkipView {
        SkipView { table_id: self.table_id, alias: self.alias@, reason: self.reason }
    }
}

/// The skip of a registered alias.
pub open spec fn skip_of(derived: DerivedView, reason: MssqlCacheCandidateSkipReason) -> SkipView {
    SkipView { table_id: derived.table.id, alias: derived.table.name, reason }
}

impl MssqlCacheCandidateSkip {
    /// Skips a registered alias.
    pub fn from_registered(
        derived: &RegisteredDerivedTable,
        reason: MssqlCacheCandidateSkipReason,
    ) -> (r: Self)
        ensures
            r@ == skip_of(derived@, reason),
    {
        MssqlCacheCandidateSkip {
            table_id: derived.table().id(),
            alias: derived.name().to_owned(),
            reason,
        }
    }

    /// Returns the skipped registered derived table id.
    pub fn table_id(&self) -> (r: u64)
        ensures
            r == self@.table_id,
    {
        self.table_id
    }

    /// Returns the skipped registered derived alias.
    pub fn alias(&self) -> (r: &str)
        ensures
            r@ == self@.alias,
    {
        self.alias.as_str()
    }

    /// Returns why the candidate was skipped.
    pub fn reason(&self) -> (r: &MssqlCacheCandidateSkipReason)
        ensures
            *r == self@.reason,
    {
        &self.reason
    }
}

/// What a cache plan says.
pub struct CachePlanView {
    pub selected_outputs: Seq<CachePlanOutputView>,
    pub decision: DecisionView,
    pub skipped_candidates: Seq<SkipView>,
}

/// Planner output for one `write_all` cache-selection pass.
#[derive(PartialEq, Eq)]
pub struct MssqlOutputCachePlan {
    selected_outputs: Vec<MssqlOutputCachePlanOutput>,
    decision: MssqlOutputCacheDecision,
    skipped_candidates: Vec<MssqlCacheCandidateSkip>,
}

impl View for MssqlOutputCachePlan {
    type V = CachePlanView;

    closed spec fn view(&self) -> CachePlanView {
        CachePlanView {
            selected_outputs: views(self.selected_outputs@),
            decision: self.decision@,
            skipped_candidates: views(self.skipped_candidates@),
        }
    }
}

impl MssqlOutputCachePlan {
    /// Collects what was decided.
    pub fn new(
        selected_outputs: Vec<MssqlOutputCachePlanOutput>,
        decision: MssqlOutputCacheDecision,
        skipped_candidates: Vec<MssqlCacheCandidateSkip>,
    ) -> (r: Self)
        ensures
            r@ == (CachePlanView {
                selected_outputs: views(selected_outputs@),
                decision: decision@,
                skipped_candidates: views(skipped_candidates@),
            }),
    {
        MssqlOutputCachePlan { selected_outputs, decision, skipped_candidates }
    }

    /// Plan that caches nothing and looked at no candidate.
    pub fn no_cache(
        selected_outputs: Vec<MssqlOutputCachePlanOutput>,
        reason: MssqlNoCacheReason,
    ) -> (r: Self)
        ensures
            r@ == (CachePlanView {
                selected_outputs: views(selected_outputs@),
                decision: DecisionView::NoCache { reason },
                skipped_candidates: seq![],
            }),
    {
        let skipped_candidates: Vec<MssqlCacheCandidateSkip> = Vec::new();
        assert(views(skipped_candidates@) =~= seq![]);
        Self::new(
            selected_outputs,
            MssqlOutputCacheDecision::NoCache { reason },
            skipped_candidates,
        )
    }

    /// Returns selected outputs in caller-provided order.
    pub fn selected_outputs(&self) -> (r: &Vec<MssqlOutputCachePlanOutput>)
        ensures
            views(r@) == self@.selected_outputs,
    {
        &self.selected_outputs
    }

    /// Returns the cache choice for this planning pass.
    pub fn decision(&self) -> (r: &MssqlOutputCacheDecision)
        ensures
            r@ == self@.decision,
    {
        &self.decision
    }

    /// Returns candidates skipped for explicit conservative reasons.
    pub fn skipped_candidates(&self) -> (r: &Vec<MssqlCacheCandidateSkip>)
        ensures
            views(r@) == self@.skipped_candidates,
    {
        &self.skipped_candidates
    }
}

/// The debug form of a reason for skipping.
pub open spec fn skip_reason_debug(reason: MssqlCacheCandidateSkipReason) -> Seq<char> {
    match reason {
        MssqlCacheCandidateSkipReason::NotShared { output_count } => {
            "NotShared { output_count: "@ + decimal(output_count as nat) + " }"@
        },
        MssqlCacheCandidateSkipReason::MissingSqlText => "MissingSqlText"@,
        MssqlCacheCandidateSkipReason::IncompleteLineage => "IncompleteLineage"@,
        MssqlCacheCandidateSkipReason::CoveredByDeeperSharedAlias { selected_table_id } => {
            "CoveredByDeeperSharedAlias { selected_table_id: "@ + decimal(selected_table_id as nat)
                + " }"@
        },
        MssqlCacheCandidateSkipReason::AmbiguousDepth => "AmbiguousDepth"@,
    }
}

/// The debug form of a skipped candidate.
pub open spec fn skip_debug(skip: SkipView) -> Seq<char> {
    "MssqlCacheCandidateSkip { table_id: "@ + decimal(skip.table_id as nat) + ", alias: "@
        + quoted_text(display_text(skip.alias)) + ", reason: "@ + skip_reason_debug(skip.reason)
        + " }"@
}

/// The debug form of a decision.
pub open spec fn decision_debug(decision: DecisionView) -> Seq<char> {
    match decision {
        DecisionView::NoCache { reason } => "NoCache { reason: "@ + reason.name_of() + " }"@,
        DecisionView::CacheAliases(aliases) => "CacheAliases("@ + listed(
            Seq::new(aliases.len(), |i: int| alias_plan_debug(aliases[i])),
        ) + ")"@,
    }
}

/// The debug form of a cache plan. It shows names alone, so nothing of a target connection.
pub open spec fn cache_plan_debug(plan: CachePlanView) -> Seq<char> {
    "MssqlOutputCachePlan { selected_outputs: "@ + listed(
        Seq::new(plan.selected_outputs.len(), |i: int| plan_output_debug(plan.selected_outputs[i])),
    ) + ", decision: "@ + decision_debug(plan.decision) + ", skipped_candidates: "@ + listed(
        Seq::new(plan.skipped_candidates.len(), |i: int| skip_debug(plan.skipped_candidates[i])),
    ) + " }"@
}

impl MssqlCacheCandidateSkipReason {
    /// Returns the debug form.
    pub fn debug_text(&self) -> (r: String)
        ensures
            r@ == skip_reason_debug(*self),
    {
        match self {
            MssqlCacheCandidateSkipReason::NotShared { output_count } => {
                let mut r = "NotShared { output_count: ".to_owned();
                r.append(decimal_text(*output_count as u64).as_str());
                r.append(" }");
                r
            },
            MssqlCacheCandidateSkipReason::MissingSqlText => "MissingSqlText".to_owned(),
            MssqlCacheCandidateSkipReason::IncompleteLineage => "IncompleteLineage".to_owned(),
            MssqlCacheCandidateSkipReason::CoveredByDeeperSharedAlias { selected_table_id } => {
                let mut r = "CoveredByDeeperSharedAlias { selected_table_id: ".to_owned();
                r.append(decimal_text(*selected_table_id).as_str());
                r.append(" }");
                r
            },
            MssqlCacheCandidateSkipReason::AmbiguousDepth => "AmbiguousDepth".to_owned(),
        }
    }
}

impl MssqlCacheCandidateSkip {
    /// Returns the debug form.
    pub fn debug_text(&self) -> (r: String)
        ensures
            r@ == skip_debug(self@),
    {
        let mut r = "MssqlCacheCandidateSkip { table_id: ".to_owned();
        r.append(decimal_text(self.table_id).as_str());
        r.append(", alias: ");
        let shown = sanitize_text_for_display(self.alias.as_str());
        r.append(quoted(shown.as_str()).as_str());
        r.append(", reason: ");
        r.append(self.reason.debug_text().as_str());
        r.append(" }");
        r
    }
}

impl MssqlOutputCacheDecision {
    /// Returns the debug form.
    pub fn debug_text(&self) -> (r: String)
        ensures
            r@ == decision_debug(self@),
    {
        match self {
            MssqlOutputCacheDecision::NoCache { reason } => {
                let mut r = "NoCache { reason: ".to_owned();
                r.append(reason.as_str());
                r.append(" }");
                r
            },
            MssqlOutputCacheDecision::CacheAliases(aliases) => {
                let ghost all = views(aliases@);
                let ghost wanted = Seq::new(all.len(), |i: int| alias_plan_debug(all[i]));
                let mut shown: Vec<String> = Vec::new();
                let mut i: usize = 0;
                assert(views(shown@) =~= wanted.take(0));
                while i < aliases.len()
                    invariant
                        i <= aliases.len(),
                        all == views(aliases@),
                        wanted == Seq::new(all.len(), |i: int| alias_plan_debug(all[i])),
                        views(shown@) == wanted.take(i as int),
                    decreases aliases.len() - i,
                {
                    let text = aliases[i].debug_text();
                    proof {
                        views_push(shown@, text);
                        assert(wanted.take(i + 1) =~= wanted.take(i as int).push(text@));
                    }
                    shown.push(text);
                    i += 1;
                }
                assert(wanted.take(aliases.len() as int) =~= wanted);
                let mut r = "CacheAliases(".to_owned();
                r.append(listed_text(&shown).as_str());
                r.append(")");
                r
            },
        }
    }
}

impl MssqlOutputCachePlan {
    /// Returns the debug form.
    pub fn debug_text(&self) -> (r: String)
        ensures
            r@ == cache_plan_debug(self@),
    {
        let mut r = "MssqlOutputCachePlan { selected_outputs: ".to_owned();
        let ghost outputs = self@.selected_outputs;
        let ghost wanted = Seq::new(outputs.len(), |i: int| plan_output_debug(outputs[i]));
        let mut shown: Vec<String> = Vec::new();
        let mut i: usize = 0;
        assert(views(shown@) =~= wanted.take(0));
        while i < self.selected_outputs.len()
            invariant
                i <= self.selected_outputs.len(),
                outputs == views(self.selected_outputs@),
                wanted == Seq::new(outputs.len(), |i: int| plan_output_debug(outputs[i])),
                views(shown@) == wanted.take(i as int),
            decreases self.selected_outputs.len() - i,
        {
            let text = self.selected_outputs[i].debug_text();
            proof {
                views_push(shown@, text);
                assert(wanted.take(i + 1) =~= wanted.take(i as int).push(text@));
            }
            shown.push(text);
            i += 1;
        }
        assert(wanted.take(self.selected_outputs.len() as int) =~= wanted);
        r.append(listed_text(&shown).as_str());
        r.append(", decision: ");
        r.append(self.decision.debug_text().as_str());
        r.append(", skipped_candidates: ");
        let ghost skips = self@.skipped_candidates;
        let ghost wanted = Seq::new(skips.len(), |i: int| skip_debug(skips[i]));
        let mut shown: Vec<String> = Vec::new();
        let mut i: usize = 0;
        assert(views(shown@) =~= wanted.take(0));
        while i < self.skipped_candidates.len()
            invariant
                i <= self.skipped_candidates.len(),
                skips == views(self.skipped_candidates@),
                wanted == Seq::new(skips.len(), |i: int| skip_debug(skips[i])),
                views(shown@) == wanted.take(i as int),
            decreases self.skipped_candidates.len() - i,
        {
            let text = self.skipped_candidates[i].debug_text();
            proof {
                views_push(shown@, text);
                assert(wanted.take(i + 1) =~= wanted.take(i as int).push(text@));
            }
            shown.push(text);
            i += 1;
        }
        assert(wanted.take(self.skipped_candidates.len() as int) =~= wanted);
        r.append(listed_text(&shown).as_str());
        r.append(" }");
        r
    }
}

/// The derived tables that a session knows.
pub struct KnownTables {
    pub derived: Seq<DerivedView>,
    pub pending: Seq<PendingView>,
}

/// The lineage of a derived table: of its registered alias, else of the pending table.
pub open spec fn table_lineage(known: KnownTables, id: u64) -> Option<LineageView> {
    match first_match(known.derived, derived_has_id(id)) {
        Some(derived) => Some(derived.lineage),
        None => match first_match(known.pending, pending_has_id(id)) {
            Some(pending) => Some(pending.lineage),
            None => None,
        },
    }
}

/// A table uses a registered alias: it is that alias, or its lineage reaches it.
pub open spec fn uses(known: KnownTables, table: LazyTableView, candidate: u64) -> bool {
    ||| table.id == candidate
    ||| {
        &&& table.kind == LazyTableKind::DerivedSql
        &&& table_lineage(known, table.id) matches Some(lineage) && depends_on(
            known.derived,
            lineage,
            candidate,
        )
    }
}

/// Tells whether a table uses a registered alias.
///
/// Direct use and lineage use both count. A raw Delta source uses no alias.
pub fn cache_output_uses_registered_derived(
    derived: &Vec<RegisteredDerivedTable>,
    pending: &Vec<PendingDerivedTable>,
    table: &LazyTable,
    candidate: u64,
) -> (r: bool)
    ensures
        r == uses(
            KnownTables { derived: views(derived@), pending: views(pending@) },
            table@,
            candidate,
        ),
{
    if table.id() == candidate {
        return true;
    }
    if table.kind() == LazyTableKind::DeltaSource {
        return false;
    }
    match find_derived_by_id(derived, table.id()) {
        Some(i) => {
            assert(views(derived@)[i as int] == derived@[i as int]@);
            let reached = reached_derived_ids(derived, derived[i].lineage());
            holds(&reached, candidate)
        },
        None => match find_pending_by_id(pending, table.id()) {
            Some(i) => {
                assert(views(pending@)[i as int] == pending@[i as int]@);
                let reached = reached_derived_ids(derived, pending[i].lineage());
                holds(&reached, candidate)
            },
            None => false,
        },
    }
}

/// The positions, among the first `n` requests, of those that use an alias.
pub open spec fn using_outputs(
    known: KnownTables,
    requests: Seq<OutputWritePlanView>,
    candidate: u64,
    n: nat,
) -> Seq<usize>
    decreases n,
{
    if n == 0 {
        seq![]
    } else {
        let before = using_outputs(known, requests, candidate, (n - 1) as nat);
        if uses(known, requests[n - 1].table, candidate) {
            before.push((n - 1) as usize)
        } else {
            before
        }
    }
}

/// Lists the positions of the requests that use an alias.
fn outputs_using(
    derived: &Vec<RegisteredDerivedTable>,
    pending: &Vec<PendingDerivedTable>,
    requests: &Vec<OutputWritePlan>,
    candidate: u64,
) -> (r: Vec<usize>)
    ensures
        r@ == using_outputs(
            KnownTables { derived: views(derived@), pending: views(pending@) },
            views(requests@),
            candidate,
            requests.len() as nat,
        ),
        r.len() <= requests.len(),
{
    let mut r: Vec<usize> = Vec::new();
    let mut i: usize = 0;
    while i < requests.len()
        invariant
            i <= requests.len(),
            r.len() <= i,
            r@ == using_outputs(
                KnownTables { derived: views(derived@), pending: views(pending@) },
                views(requests@),
                candidate,
                i as nat,
            ),
        decreases requests.len() - i,
    {
        assert(views(requests@)[i as int] == requests@[i as int]@);
        if cache_output_uses_registered_derived(derived, pending, requests[i].table(), candidate) {
            r.push(i);
        }
        i += 1;
    }
    r
}

/// What is found about one registered alias.
pub enum CandidateView {
    Shared(AliasPlanView),
    Skipped(SkipView),
}

/// What is found about a registered alias: it is shared when its SQL text and lineage are
/// there and at least two requests use it.
pub open spec fn candidate(
    known: KnownTables,
    requests: Seq<OutputWritePlanView>,
    derived: DerivedView,
) -> CandidateView {
    let outputs = using_outputs(known, requests, derived.table.id, requests.len());
    if is_blank(derived.sql_text) {
        CandidateView::Skipped(skip_of(derived, MssqlCacheCandidateSkipReason::MissingSqlText))
    } else if derived.lineage is Incomplete {
        CandidateView::Skipped(skip_of(derived, MssqlCacheCandidateSkipReason::IncompleteLineage))
    } else if outputs.len() >= 2 {
        CandidateView::Shared(
            AliasPlanView {
                table_id: derived.table.id,
                alias: derived.table.name,
                output_indexes: outputs,
            },
        )
    } else {
        CandidateView::Skipped(
            skip_of(
                derived,
                MssqlCacheCandidateSkipReason::NotShared { output_count: outputs.len() as usize },
            ),
        )
    }
}

/// The shared aliases among the first `n` registered ones, in registration order.
pub open spec fn shared_candidates(
    known: KnownTables,
    requests: Seq<OutputWritePlanView>,
    n: nat,
) -> Seq<AliasPlanView>
    decreases n,
{
    if n == 0 {
        seq![]
    } else {
        let before = shared_candidates(known, requests, (n - 1) as nat);
        match candidate(known, requests, known.derived[n - 1]) {
            CandidateView::Shared(alias) => before.push(alias),
            CandidateView::Skipped(_) => before,
        }
    }
}

/// The aliases among the first `n` registered ones that are not shared, in registration order.
pub open spec fn unshared_candidates(
    known: KnownTables,
    requests: Seq<OutputWritePlanView>,
    n: nat,
) -> Seq<SkipView>
    decreases n,
{
    if n == 0 {
        seq![]
    } else {
        let before = unshared_candidates(known, requests, (n - 1) as nat);
        match candidate(known, requests, known.derived[n - 1]) {
            CandidateView::Shared(_) => before,
            CandidateView::Skipped(skip) => before.push(skip),
        }
    }
}

/// The registered alias `id` is a downstream derived alias of `other`.
pub open spec fn deeper_than(known: KnownTables, id: u64, other: u64) -> bool {
    &&& id != other
    &&& first_match(known.derived, derived_has_id(id)) matches Some(table)
    &&& first_match(known.derived, derived_has_id(other)) is Some
    &&& uses(known, table.table, other)
}

/// Tells whether a registered alias is a downstream derived alias of another.
///
/// The order rests on table identity and captured lineage, not on names, SQL text,
/// registration order or output order. An alias that is not registered is not deeper.
fn cache_candidate_is_deeper_than(
    derived: &Vec<RegisteredDerivedTable>,
    pending: &Vec<PendingDerivedTable>,
    id: u64,
    other: u64,
) -> (r: bool)
    ensures
        r == deeper_than(
            KnownTables { derived: views(derived@), pending: views(pending@) },
            id,
            other,
        ),
{
    if id == other {
        return false;
    }
    match find_derived_by_id(derived, id) {
        Some(i) => match find_derived_by_id(derived, other) {
            Some(_) => {
                assert(views(derived@)[i as int] == derived@[i as int]@);
                cache_output_uses_registered_derived(derived, pending, derived[i].table(), other)
            },
            None => false,
        },
        None => false,
    }
}

/// Another candidate is deeper than the one at a position.
pub open spec fn covered(known: KnownTables, candidates: Seq<AliasPlanView>, i: int) -> bool {
    exists|j: int|
        0 <= j < candidates.len() && j != i && deeper_than(
            known,
            (#[trigger] candidates[j]).table_id,
            candidates[i].table_id,
        )
}

/// The candidates among the first `n` that no other candidate covers.
pub open spec fn frontier(known: KnownTables, candidates: Seq<AliasPlanView>, n: nat) -> Seq<
    AliasPlanView,
>
    decreases n,
{
    if n == 0 {
        seq![]
    } else {
        let before = frontier(known, candidates, (n - 1) as nat);
        if covered(known, candidates, n - 1) {
            before
        } else {
            before.push(candidates[n - 1])
        }
    }
}

/// A candidate that a deeper selected alias stands in for.
pub struct CoveredView {
    pub alias: AliasPlanView,
    pub selected_table_id: u64,
}

/// An alias is deeper than a given one.
pub open spec fn is_deeper_than(known: KnownTables, other: u64) -> spec_fn(AliasPlanView) -> bool {
    |alias: AliasPlanView| deeper_than(known, alias.table_id, other)
}

/// The covered candidates among the first `n` for which some selected alias is deeper, each
/// with the first such alias.
pub open spec fn covered_candidates(
    known: KnownTables,
    candidates: Seq<AliasPlanView>,
    selected: Seq<AliasPlanView>,
    n: nat,
) -> Seq<CoveredView>
    decreases n,
{
    if n == 0 {
        seq![]
    } else {
        let before = covered_candidates(known, candidates, selected, (n - 1) as nat);
        if covered(known, candidates, n - 1) {
            match first_match(selected, is_deeper_than(known, candidates[n - 1].table_id)) {
                Some(alias) => before.push(
                    CoveredView {
                        alias: candidates[n - 1],
                        selected_table_id: alias.table_id,
                    },
                ),
                None => before,
            }
        } else {
            before
        }
    }
}

/// How the frontier of some candidates comes out.
pub enum FrontierView {
    Selected { selected: Seq<AliasPlanView>, covered: Seq<CoveredView> },
    Ambiguous,
}

/// The frontier is every candidate that no other one covers. It is ambiguous when there is
/// none, or when a covered candidate has no deeper alias on it.
pub open spec fn shared_cache_frontier(known: KnownTables, candidates: Seq<AliasPlanView>) -> FrontierView {
    let selected = frontier(known, candidates, candidates.len());
    let covered = covered_candidates(known, candidates, selected, candidates.len());
    if selected.len() == 0 || selected.len() + covered.len() != candidates.len() {
        FrontierView::Ambiguous
    } else {
        FrontierView::Selected { selected, covered }
    }
}

/// A candidate that a deeper selected alias stands in for.
pub struct MssqlCoveredCacheAlias {
    /// The skipped upstream alias.
    pub alias: MssqlDerivedCacheAliasPlan,
    /// The selected downstream alias that covers it.
    pub selected_table_id: u64,
}

impl View for MssqlCoveredCacheAlias {
    type V = CoveredView;

    open spec fn view(&self) -> CoveredView {
        CoveredView { alias: self.alias@, selected_table_id: self.selected_table_id }
    }
}

/// Result of selecting the cache frontier from eligible shared candidates.
pub enum MssqlCacheFrontierSelection {
    /// Candidates on the frontier, and the broader ones that they cover.
    Selected {
        selected_aliases: Vec<MssqlDerivedCacheAliasPlan>,
        covered_aliases: Vec<MssqlCoveredCacheAlias>,
    },
    /// Candidates whose order does not make a frontier.
    Ambiguous { ambiguous_aliases: Vec<MssqlDerivedCacheAliasPlan> },
}

/// Tells whether some other candidate is deeper than the one at a position.
fn covered_by_deeper(
    derived: &Vec<RegisteredDerivedTable>,
    pending: &Vec<PendingDerivedTable>,
    candidates: &Vec<MssqlDerivedCacheAliasPlan>,
    i: usize,
) -> (r: bool)
    requires
        i < candidates.len(),
    ensures
        r == covered(
            KnownTables { derived: views(derived@), pending: views(pending@) },
            views(candidates@),
            i as int,
        ),
{
    let ghost known = KnownTables { derived: views(derived@), pending: views(pending@) };
    let ghost viewed = views(candidates@);
    let mut j: usize = 0;
    while j < candidates.len()
        invariant
            i < candidates.len(),
            j <= candidates.len(),
            known == (KnownTables { derived: views(derived@), pending: views(pending@) }),
            viewed == views(candidates@),
            forall|k: int|
                0 <= k < j && k != i ==> !deeper_than(
                    known,
                    (#[trigger] viewed[k]).table_id,
                    viewed[i as int].table_id,
                ),
        decreases candidates.len() - j,
    {
        if j != i && cache_candidate_is_deeper_than(
            derived,
            pending,
            candidates[j].table_id(),
            candidates[i].table_id(),
        ) {
            assert(deeper_than(known, viewed[j as int].table_id, viewed[i as int].table_id));
            return true;
        }
        j += 1;
    }
    false
}

/// Finds the first alias that is deeper than a given one.
fn first_deeper(
    derived: &Vec<RegisteredDerivedTable>,
    pending: &Vec<PendingDerivedTable>,
    selected: &Vec<MssqlDerivedCacheAliasPlan>,
    other: u64,
) -> (r: Option<u64>)
    ensures
        ({
            let known = KnownTables { derived: views(derived@), pending: views(pending@) };
            match first_match(views(selected@), is_deeper_than(known, other)) {
                Some(alias) => r == Some(alias.table_id),
                None => r is None,
            }
        }),
{
    let ghost known = KnownTables { derived: views(derived@), pending: views(pending@) };
    let ghost viewed = views(selected@);
    let ghost p = is_deeper_than(known, other);
    let mut i: usize = 0;
    while i < selected.len()
        invariant
            i <= selected.len(),
            known == (KnownTables { derived: views(derived@), pending: views(pending@) }),
            viewed == views(selected@),
            p == is_deeper_than(known, other),
            forall|k: int| 0 <= k < i ==> !p(#[trigger] viewed[k]),
        decreases selected.len() - i,
    {
        assert(viewed[i as int] == selected@[i as int]@);
        let id: u64 = selected[i].table_id();
        if cache_candidate_is_deeper_than(derived, pending, id, other) {
            proof {
                crate::search::first_position_is(viewed, p, i as int);
            }
            return Some(id);
        }
        i += 1;
    }
    proof {
        crate::search::first_position_is_none(viewed, p);
    }
    None
}

/// Selects the cache frontier from eligible shared derived aliases.
///
/// Chain-shaped candidates collapse to the deepest alias, while independent candidates are
/// kept together even when they serve the same selected outputs.
pub fn select_shared_cache_frontier(
    derived: &Vec<RegisteredDerivedTable>,
    pending: &Vec<PendingDerivedTable>,
    candidates: Vec<MssqlDerivedCacheAliasPlan>,
) -> (r: MssqlCacheFrontierSelection)
    ensures
        ({
            let known = KnownTables { derived: views(derived@), pending: views(pending@) };
            match shared_cache_frontier(known, views(candidates@)) {
                FrontierView::Selected { selected, covered } => {
                    r matches MssqlCacheFrontierSelection::Selected {
                        selected_aliases,
                        covered_aliases,
                    } && views(selected_aliases@) == selected && views(covered_aliases@) == covered
                },
                FrontierView::Ambiguous => {
                    r matches MssqlCacheFrontierSelection::Ambiguous { ambiguous_aliases }
                        && views(ambiguous_aliases@) == views(candidates@)
                },
            }
        }),
{
    let ghost known = KnownTables { derived: views(derived@), pending: views(pending@) };
    let ghost viewed = views(candidates@);
    let mut selected: Vec<MssqlDerivedCacheAliasPlan> = Vec::new();
    let mut on_frontier: Vec<bool> = Vec::new();
    let mut i: usize = 0;
    assert(views(selected@) =~= frontier(known, viewed, 0));
    while i < candidates.len()
        invariant
            i <= candidates.len(),
            known == (KnownTables { derived: views(derived@), pending: views(pending@) }),
            viewed == views(candidates@),
            views(selected@) == frontier(known, viewed, i as nat),
            selected.len() <= i,
            on_frontier.len() == i,
            forall|k: int| 0 <= k < i ==> on_frontier@[k] == !covered(known, viewed, k),
        decreases candidates.len() - i,
    {
        let is_covered = covered_by_deeper(derived, pending, &candidates, i);
        if !is_covered {
            let alias = candidates[i].clone();
            proof {
                views_push(selected@, alias);
                assert(alias@ == viewed[i as int]);
            }
            selected.push(alias);
        }
        on_frontier.push(!is_covered);
        i += 1;
    }
    if selected.len() == 0 {
        return MssqlCacheFrontierSelection::Ambiguous { ambiguous_aliases: candidates };
    }
    let ghost chosen = views(selected@);
    let mut covered_aliases: Vec<MssqlCoveredCacheAlias> = Vec::new();
    let mut k: usize = 0;
    assert(views(covered_aliases@) =~= covered_candidates(known, viewed, chosen, 0));
    proof {
        frontier_and_covered_bounded(known, viewed, chosen, 0);
    }
    while k < candidates.len()
        invariant
            k <= candidates.len(),
            known == (KnownTables { derived: views(derived@), pending: views(pending@) }),
            viewed == views(candidates@),
            chosen == views(selected@),
            views(covered_aliases@) == covered_candidates(known, viewed, chosen, k as nat),
            covered_aliases.len() + frontier(known, viewed, k as nat).len() <= k,
            on_frontier.len() == candidates.len(),
            forall|j: int|
                0 <= j < candidates.len() ==> on_frontier@[j] == !covered(known, viewed, j),
        decreases candidates.len() - k,
    {
        if !on_frontier[k] {
            match first_deeper(derived, pending, &selected, candidates[k].table_id()) {
                Some(selected_table_id) => {
                    let entry = MssqlCoveredCacheAlias {
                        alias: candidates[k].clone(),
                        selected_table_id,
                    };
                    proof {
                        views_push(covered_aliases@, entry);
                        assert(entry.alias@ == viewed[k as int]);
                    }
                    covered_aliases.push(entry);
                },
                None => {},
            }
        }
        k += 1;
    }
    if selected.len() + covered_aliases.len() != candidates.len() {
        return MssqlCacheFrontierSelection::Ambiguous { ambiguous_aliases: candidates };
    }
    MssqlCacheFrontierSelection::Selected { selected_aliases: selected, covered_aliases }
}

/// No candidate is both on the frontier and covered.
pub proof fn frontier_and_covered_bounded(
    known: KnownTables,
    candidates: Seq<AliasPlanView>,
    selected: Seq<AliasPlanView>,
    n: nat,
)
    ensures
        frontier(known, candidates, n).len() + covered_candidates(
            known,
            candidates,
            selected,
            n,
        ).len() <= n,
    decreases n,
{
    if n > 0 {
        frontier_and_covered_bounded(known, candidates, selected, (n - 1) as nat);
    }
}

/// The skips of covered candidates.
pub open spec fn covered_skips(known: KnownTables, covered: Seq<CoveredView>, n: nat) -> Seq<SkipView>
    decreases n,
{
    if n == 0 {
        seq![]
    } else {
        let before = covered_skips(known, covered, (n - 1) as nat);
        match first_match(known.derived, derived_has_id(covered[n - 1].alias.table_id)) {
            Some(derived) => before.push(
                skip_of(
                    derived,
                    MssqlCacheCandidateSkipReason::CoveredByDeeperSharedAlias {
                        selected_table_id: covered[n - 1].selected_table_id,
                    },
                ),
            ),
            None => before,
        }
    }
}

/// The skips of candidates whose order does not make a frontier.
pub open spec fn ambiguous_skips(
    known: KnownTables,
    candidates: Seq<AliasPlanView>,
    n: nat,
) -> Seq<SkipView>
    decreases n,
{
    if n == 0 {
        seq![]
    } else {
        let before = ambiguous_skips(known, candidates, (n - 1) as nat);
        match first_match(known.derived, derived_has_id(candidates[n - 1].table_id)) {
            Some(derived) => before.push(
                skip_of(derived, MssqlCacheCandidateSkipReason::AmbiguousDepth),
            ),
            None => before,
        }
    }
}

/// The requests as selected outputs, in the order of the caller.
pub open spec fn plan_outputs(requests: Seq<OutputWritePlanView>) -> Seq<CachePlanOutputView> {
    Seq::new(requests.len(), |i: int| plan_output(i, requests[i]))
}

/// What is cached for some requests.
///
/// Fewer than two requests share nothing. A single shared alias is cached. Of several the
/// frontier is cached, and nothing where it is ambiguous.
pub open spec fn output_cache_plan(
    known: KnownTables,
    requests: Seq<OutputWritePlanView>,
) -> CachePlanView {
    let selected_outputs = plan_outputs(requests);
    let shared = shared_candidates(known, requests, known.derived.len());
    let unshared = unshared_candidates(known, requests, known.derived.len());
    if requests.len() < 2 {
        CachePlanView {
            selected_outputs,
            decision: DecisionView::NoCache { reason: MssqlNoCacheReason::FewerThanTwoOutputs },
            skipped_candidates: seq![],
        }
    } else if shared.len() == 0 {
        CachePlanView {
            selected_outputs,
            decision: DecisionView::NoCache {
                reason: MssqlNoCacheReason::NoSharedRegisteredDerivedAlias,
            },
            skipped_candidates: unshared,
        }
    } else if shared.len() == 1 {
        CachePlanView {
            selected_outputs,
            decision: DecisionView::CacheAliases(shared),
            skipped_candidates: unshared,
        }
    } else {
        match shared_cache_frontier(known, shared) {
            FrontierView::Selected { selected, covered } => CachePlanView {
                selected_outputs,
                decision: DecisionView::CacheAliases(selected),
                skipped_candidates: unshared + covered_skips(known, covered, covered.len()),
            },
            FrontierView::Ambiguous => CachePlanView {
                selected_outputs,
                decision: DecisionView::NoCache {
                    reason: MssqlNoCacheReason::AmbiguousSharedDerivedAlias,
                },
                skipped_candidates: unshared + ambiguous_skips(known, shared, shared.len()),
            },
        }
    }
}

/// Captures the identities of the requests.
fn selected_outputs_of(requests: &Vec<OutputWritePlan>) -> (r: Vec<MssqlOutputCachePlanOutput>)
    ensures
        views(r@) == plan_outputs(views(requests@)),
{
    let ghost wanted = plan_outputs(views(requests@));
    let mut r: Vec<MssqlOutputCachePlanOutput> = Vec::new();
    let mut i: usize = 0;
    assert(views(r@) =~= wanted.take(0));
    while i < requests.len()
        invariant
            i <= requests.len(),
            wanted == plan_outputs(views(requests@)),
            views(r@) == wanted.take(i as int),
        decreases requests.len() - i,
    {
        let output = MssqlOutputCachePlanOutput::from_request(i, &requests[i]);
        proof {
            views_push(r@, output);
            assert(views(requests@)[i as int] == requests@[i as int]@);
            assert(wanted.take(i + 1) =~= wanted.take(i as int).push(output@));
        }
        r.push(output);
        i += 1;
    }
    assert(wanted.take(requests.len() as int) =~= wanted);
    r
}

/// Appends the skips of covered candidates.
fn push_covered_skips(
    derived: &Vec<RegisteredDerivedTable>,
    covered_aliases: &Vec<MssqlCoveredCacheAlias>,
    skipped: &mut Vec<MssqlCacheCandidateSkip>,
    Ghost(known): Ghost<KnownTables>,
)
    requires
        known.derived == views(derived@),
    ensures
        views(final(skipped)@) == views(old(skipped)@) + covered_skips(
            known,
            views(covered_aliases@),
            covered_aliases.len() as nat,
        ),
{
    let ghost viewed = views(covered_aliases@);
    let mut i: usize = 0;
    assert(views(skipped@) =~= views(old(skipped)@) + covered_skips(known, viewed, 0));
    while i < covered_aliases.len()
        invariant
            i <= covered_aliases.len(),
            known.derived == views(derived@),
            viewed == views(covered_aliases@),
            views(skipped@) == views(old(skipped)@) + covered_skips(known, viewed, i as nat),
        decreases covered_aliases.len() - i,
    {
        assert(viewed[i as int] == covered_aliases@[i as int]@);
        match find_derived_by_id(derived, covered_aliases[i].alias.table_id()) {
            Some(k) => {
                let skip = MssqlCacheCandidateSkip::from_registered(
                    &derived[k],
                    MssqlCacheCandidateSkipReason::CoveredByDeeperSharedAlias {
                        selected_table_id: covered_aliases[i].selected_table_id,
                    },
                );
                proof {
                    assert(views(derived@)[k as int] == derived@[k as int]@);
                    views_push(skipped@, skip);
                    assert((views(old(skipped)@) + covered_skips(known, viewed, i as nat)).push(
                        skip@,
                    ) =~= views(old(skipped)@) + covered_skips(known, viewed, i as nat).push(skip@));
                }
                skipped.push(skip);
            },
            None => {},
        }
        i += 1;
    }
}

/// Appends the skips of candidates whose order does not make a frontier.
fn push_ambiguous_skips(
    derived: &Vec<RegisteredDerivedTable>,
    candidates: &Vec<MssqlDerivedCacheAliasPlan>,
    skipped: &mut Vec<MssqlCacheCandidateSkip>,
    Ghost(known): Ghost<KnownTables>,
)
    requires
        known.derived == views(derived@),
    ensures
        views(final(skipped)@) == views(old(skipped)@) + ambiguous_skips(
            known,
            views(candidates@),
            candidates.len() as nat,
        ),
{
    let ghost viewed = views(candidates@);
    let mut i: usize = 0;
    assert(views(skipped@) =~= views(old(skipped)@) + ambiguous_skips(known, viewed, 0));
    while i < candidates.len()
        invariant
            i <= candidates.len(),
            known.derived == views(derived@),
            viewed == views(candidates@),
            views(skipped@) == views(old(skipped)@) + ambiguous_skips(known, viewed, i as nat),
        decreases candidates.len() - i,
    {
        assert(viewed[i as int] == candidates@[i as int]@);
        match find_derived_by_id(derived, candidates[i].table_id()) {
            Some(k) => {
                let skip = MssqlCacheCandidateSkip::from_registered(
                    &derived[k],
                    MssqlCacheCandidateSkipReason::AmbiguousDepth,
                );
                proof {
                    assert(views(derived@)[k as int] == derived@[k as int]@);
                    views_push(skipped@, skip);
                    assert((views(old(skipped)@) + ambiguous_skips(known, viewed, i as nat)).push(
                        skip@,
                    ) =~= views(old(skipped)@) + ambiguous_skips(known, viewed, i as nat).push(
                        skip@,
                    ));
                }
                skipped.push(skip);
            },
            None => {},
        }
        i += 1;
    }
}

/// Decides which derived aliases are cached while some requests are written.
pub fn plan_mssql_output_cache(
    derived: &Vec<RegisteredDerivedTable>,
    pending: &Vec<PendingDerivedTable>,
    requests: &Vec<OutputWritePlan>,
) -> (r: MssqlOutputCachePlan)
    ensures
        r@ == output_cache_plan(
            KnownTables { derived: views(derived@), pending: views(pending@) },
            views(requests@),
        ),
{
    let ghost known = KnownTables { derived: views(derived@), pending: views(pending@) };
    let ghost wanted = views(requests@);
    let selected_outputs = selected_outputs_of(requests);
    if requests.len() < 2 {
        return MssqlOutputCachePlan::no_cache(
            selected_outputs,
            MssqlNoCacheReason::FewerThanTwoOutputs,
        );
    }
    let mut shared: Vec<MssqlDerivedCacheAliasPlan> = Vec::new();
    let mut skipped: Vec<MssqlCacheCandidateSkip> = Vec::new();
    let mut i: usize = 0;
    assert(views(shared@) =~= shared_candidates(known, wanted, 0));
    assert(views(skipped@) =~= unshared_candidates(known, wanted, 0));
    while i < derived.len()
        invariant
            i <= derived.len(),
            known == (KnownTables { derived: views(derived@), pending: views(pending@) }),
            wanted == views(requests@),
            views(shared@) == shared_candidates(known, wanted, i as nat),
            views(skipped@) == unshared_candidates(known, wanted, i as nat),
        decreases derived.len() - i,
    {
        let table = &derived[i];
        assert(known.derived[i as int] == table@);
        if blank(table.sql_text()) {
            let skip = MssqlCacheCandidateSkip::from_registered(
                table,
                MssqlCacheCandidateSkipReason::MissingSqlText,
            );
            proof {
                views_push(skipped@, skip);
            }
            skipped.push(skip);
        } else if !table.lineage().is_complete() {
            let skip = MssqlCacheCandidateSkip::from_registered(
                table,
                MssqlCacheCandidateSkipReason::IncompleteLineage,
            );
            proof {
                views_push(skipped@, skip);
            }
            skipped.push(skip);
        } else {
            let output_indexes = outputs_using(derived, pending, requests, table.table().id());
            if output_indexes.len() >= 2 {
                let alias = MssqlDerivedCacheAliasPlan::from_registered(table, output_indexes);
                proof {
                    views_push(shared@, alias);
                }
                shared.push(alias);
            } else {
                let skip = MssqlCacheCandidateSkip::from_registered(
                    table,
                    MssqlCacheCandidateSkipReason::NotShared { output_count: output_indexes.len() },
                );
                proof {
                    views_push(skipped@, skip);
                }
                skipped.push(skip);
            }
        }
        i += 1;
    }
    if shared.len() == 0 {
        return MssqlOutputCachePlan::new(
            selected_outputs,
            MssqlOutputCacheDecision::NoCache {
                reason: MssqlNoCacheReason::NoSharedRegisteredDerivedAlias,
            },
            skipped,
        );
    }
    if shared.len() == 1 {
        return MssqlOutputCachePlan::new(
            selected_outputs,
            MssqlOutputCacheDecision::CacheAliases(shared),
            skipped,
        );
    }
    match select_shared_cache_frontier(derived, pending, shared) {
        MssqlCacheFrontierSelection::Selected { selected_aliases, covered_aliases } => {
            push_covered_skips(derived, &covered_aliases, &mut skipped, Ghost(known));
            MssqlOutputCachePlan::new(
                selected_outputs,
                MssqlOutputCacheDecision::CacheAliases(selected_aliases),
                skipped,
            )
        },
        MssqlCacheFrontierSelection::Ambiguous { ambiguous_aliases } => {
            push_ambiguous_skips(derived, &ambiguous_aliases, &mut skipped, Ghost(known));
            MssqlOutputCachePlan::new(
                selected_outputs,
                MssqlOutputCacheDecision::NoCache {
                    reason: MssqlNoCacheReason::AmbiguousSharedDerivedAlias,
                },
                skipped,
            )
        },
    }
}

} // verus!
