//! What a SQL-derived table reads, directly and through other derived tables.

use vstd::prelude::*;

use crate::report::views;

verus! {

/// What a dependency says.
pub enum DependencyView {
    DeltaSource { table_id: u64, name: Seq<char> },
    RegisteredDerived { table_id: u64, name: Seq<char> },
}

/// Session table that the SQL of a derived table names.
#[derive(Debug, PartialEq, Eq)]
pub enum DerivedTableDependency {
    /// Registered Delta source.
    DeltaSource { table_id: u64, name: String },
    /// Registered SQL-derived alias.
    RegisteredDerived { table_id: u64, name: String },
}

impl View for DerivedTableDependency {
    type V = DependencyView;

    open spec fn view(&self) -> DependencyView {
        match *self {
            DerivedTableDependency::DeltaSource { table_id, name } => DependencyView::DeltaSource {
                table_id,
                name: name@,
            },
            DerivedTableDependency::RegisteredDerived { table_id, name } => {
                DependencyView::RegisteredDerived { table_id, name: name@ }
            },
        }
    }
}

/// What a lineage says.
pub enum LineageView {
    Complete {
        dependencies: Seq<DependencyView>,
        external_references: Seq<Seq<char>>,
        cte_names: Seq<Seq<char>>,
    },
    Incomplete { reason: Seq<char> },
}

/// Dependencies captured from the SQL text of a derived table.
#[derive(Debug, PartialEq, Eq)]
pub enum DerivedTableLineage {
    /// Every reference was resolved: to session tables, to tables that only the catalog knows,
    /// or to common table expressions of the text itself.
    Complete {
        dependencies: Vec<DerivedTableDependency>,
        external_references: Vec<String>,
        cte_names: Vec<String>,
    },
    /// The references could not be read from the text.
    Incomplete { reason: String },
}

impl View for DerivedTableLineage {
    type V = LineageView;

    open spec fn view(&self) -> LineageView {
        match *self {
            DerivedTableLineage::Complete { dependencies, external_references, cte_names } => {
                LineageView::Complete {
                    dependencies: views(dependencies@),
                    external_references: views(external_references@),
                    cte_names: views(cte_names@),
                }
            },
            DerivedTableLineage::Incomplete { reason } => LineageView::Incomplete {
                reason: reason@,
            },
        }
    }
}

/// A dependency is a registered derived alias with the given id.
pub open spec fn is_derived_dependency(dependency: DependencyView, id: u64) -> bool {
    dependency matches DependencyView::RegisteredDerived { table_id, .. } && table_id == id
}

/// A dependency is a Delta source with the given id.
pub open spec fn is_source_dependency(dependency: DependencyView, id: u64) -> bool {
    dependency matches DependencyView::DeltaSource { table_id, .. } && table_id == id
}

/// The session tables that a lineage names; an incomplete one names none.
pub open spec fn dependencies_of(lineage: LineageView) -> Seq<DependencyView> {
    match lineage {
        LineageView::Complete { dependencies, .. } => dependencies,
        LineageView::Incomplete { .. } => seq![],
    }
}

/// A lineage names a registered derived alias.
pub open spec fn names_derived(lineage: LineageView, id: u64) -> bool {
    exists|i: int|
        0 <= i < dependencies_of(lineage).len() && is_derived_dependency(
            #[trigger] dependencies_of(lineage)[i],
            id,
        )
}

/// A lineage names a Delta source.
pub open spec fn names_source(lineage: LineageView, id: u64) -> bool {
    exists|i: int|
        0 <= i < dependencies_of(lineage).len() && is_source_dependency(
            #[trigger] dependencies_of(lineage)[i],
            id,
        )
}

impl DerivedTableLineage {
    /// Lineage of a text whose references were all resolved.
    pub fn complete(
        dependencies: Vec<DerivedTableDependency>,
        external_references: Vec<String>,
        cte_names: Vec<String>,
    ) -> (r: Self)
        ensures
            r@ == (LineageView::Complete {
                dependencies: views(dependencies@),
                external_references: views(external_references@),
                cte_names: views(cte_names@),
            }),
    {
        DerivedTableLineage::Complete { dependencies, external_references, cte_names }
    }

    /// Lineage of a text whose references could not be read.
    pub fn incomplete(reason: &str) -> (r: Self)
        ensures
            r@ == (LineageView::Incomplete { reason: reason@ }),
    {
        DerivedTableLineage::Incomplete { reason: reason.to_owned() }
    }

    /// Tells whether every reference was resolved.
    pub fn is_complete(&self) -> (r: bool)
        ensures
            r == (self@ is Complete),
    {
        matches!(self, DerivedTableLineage::Complete { .. })
    }

    /// Returns the ids of the registered derived aliases that the text names, in order.
    pub fn derived_ids(&self) -> (r: Vec<u64>)
        ensures
            forall|id: u64| r@.contains(id) <==> names_derived(self@, id),
    {
        let mut r: Vec<u64> = Vec::new();
        match self {
            DerivedTableLineage::Incomplete { .. } => {},
            DerivedTableLineage::Complete { dependencies, .. } => {
                let mut i: usize = 0;
                while i < dependencies.len()
                    invariant
                        i <= dependencies.len(),
                        forall|id: u64|
                            r@.contains(id) <==> exists|k: int|
                                0 <= k < i && is_derived_dependency(
                                    (#[trigger] dependencies@[k])@,
                                    id,
                                ),
                    decreases dependencies.len() - i,
                {
                    let ghost before = r@;
                    match &dependencies[i] {
                        DerivedTableDependency::RegisteredDerived { table_id, .. } => {
                            r.push(*table_id);
                            assert forall|id: u64|
                                r@.contains(id) <==> exists|k: int|
                                    0 <= k < i + 1 && is_derived_dependency(
                                        (#[trigger] dependencies@[k])@,
                                        id,
                                    ) by {
                                if r@.contains(id) {
                                    let n = choose|n: int| 0 <= n < r@.len() && r@[n] == id;
                                    if n < before.len() {
                                        assert(before[n] == id);
                                        assert(before.contains(id));
                                    } else {
                                        assert(is_derived_dependency(
                                            dependencies@[i as int]@,
                                            id,
                                        ));
                                    }
                                }
                                if exists|k: int|
                                    0 <= k < i + 1 && is_derived_dependency(
                                        (#[trigger] dependencies@[k])@,
                                        id,
                                    ) {
                                    let k = choose|k: int|
                                        0 <= k < i + 1 && is_derived_dependency(
                                            (#[trigger] dependencies@[k])@,
                                            id,
                                        );
                                    if k < i {
                                        assert(before.contains(id));
                                        let n = choose|n: int|
                                            0 <= n < before.len() && before[n] == id;
                                        assert(r@[n] == id);
                                    } else {
                                        assert(r@[before.len() as int] == id);
                                    }
                                }
                            }
                        },
                        DerivedTableDependency::DeltaSource { .. } => {
                            assert forall|id: u64|
                                r@.contains(id) <==> exists|k: int|
                                    0 <= k < i + 1 && is_derived_dependency(
                                        (#[trigger] dependencies@[k])@,
                                        id,
                                    ) by {
                                assert(!is_derived_dependency(dependencies@[i as int]@, id));
                            }
                        },
                    }
                    i += 1;
                }
                assert forall|id: u64| r@.contains(id) <==> names_derived(self@, id) by {
                    let named = dependencies_of(self@);
                    assert(named == views(dependencies@));
                    if r@.contains(id) {
                        let k = choose|k: int|
                            0 <= k < dependencies@.len() && is_derived_dependency(
                                (#[trigger] dependencies@[k])@,
                                id,
                            );
                        assert(is_derived_dependency(named[k], id));
                    }
                    if names_derived(self@, id) {
                        let k = choose|k: int|
                            0 <= k < named.len() && is_derived_dependency(#[trigger] named[k], id);
                        assert(is_derived_dependency(dependencies@[k]@, id));
                    }
                }
            },
        }
        r
    }

    /// Tells whether the text names a Delta source.
    pub fn names_source_id(&self, id: u64) -> (r: bool)
        ensures
            r == names_source(self@, id),
    {
        match self {
            DerivedTableLineage::Incomplete { .. } => false,
            DerivedTableLineage::Complete { dependencies, .. } => {
                let ghost named = dependencies_of(self@);
                assert(named == views(dependencies@));
                let mut i: usize = 0;
                while i < dependencies.len()
                    invariant
                        i <= dependencies.len(),
                        named == dependencies_of(self@),
                        named == views(dependencies@),
                        forall|k: int| 0 <= k < i ==> !is_source_dependency(#[trigger] named[k], id),
                    decreases dependencies.len() - i,
                {
                    assert(named[i as int] == dependencies@[i as int]@);
                    match &dependencies[i] {
                        DerivedTableDependency::DeltaSource { table_id, .. } => {
                            if *table_id == id {
                                assert(is_source_dependency(named[i as int], id));
                                return true;
                            }
                        },
                        DerivedTableDependency::RegisteredDerived { .. } => {},
                    }
                    i += 1;
                }
                false
            },
        }
    }
}

} // verus!
