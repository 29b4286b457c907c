//! The mapping of a forest to persons, families and child rows.
//!
//! Numbers are handed out by three counters: persons from 1, families from 10,001 and
//! child rows from 1,000,001. A counter is used up once it has passed the largest `u32`;
//! a record that would need a number from it is left out like any other record with a
//! part missing.
use crate::models::gedcom::line::{GedcomLineTag, TagView};
use crate::models::gedcom::tree::{lemma_node_views, GedcomTree, GedcomTreeNode, NodeView};
use crate::models::date::DateTime;
use crate::models::gedcom::{change_date_time, change_node_to_date_time};
use crate::models::relation::family::{Child, Family, FamilyBuilder};
use crate::models::relation::person::{
    built_person, person_scan, Person, PersonBuilder, PersonBuilderView, PersonView,
};
use vstd::hash_map::StringHashMap;
use vstd::prelude::*;

verus! {

/// The number of the first person.
pub const FIRST_PERSON_ID: u64 = 1;

/// The number of the first family.
pub const FIRST_FAMILY_ID: u64 = 10_001;

/// The number of the first child row.
pub const FIRST_CHILD_ID: u64 = 1_000_001;

/// What a document is mapped to. The four collections without a type of their own are
/// kinds of record that are not mapped; they stay empty.
#[derive(Debug, PartialEq, Eq)]
pub struct ApiResponse {
    pub childs: Vec<Child>,
    pub fact_types: Vec<()>,
    pub familys: Vec<Family>,
    pub master_sources: Vec<()>,
    pub medias: Vec<()>,
    pub persons: Vec<Person>,
    pub source_repos: Vec<()>,
}

/// A response as contracts see it.
pub struct ApiResponseView {
    pub childs: Seq<Child>,
    pub fact_types: Seq<()>,
    pub familys: Seq<Family>,
    pub master_sources: Seq<()>,
    pub medias: Seq<()>,
    pub persons: Seq<PersonView>,
    pub source_repos: Seq<()>,
}

/// The views of some persons, in their order.
pub open spec fn person_views(persons: Seq<Person>) -> Seq<PersonView> {
    Seq::new(persons.len(), |i: int| persons[i]@)
}

impl View for ApiResponse {
    type V = ApiResponseView;

    open spec fn view(&self) -> ApiResponseView {
        ApiResponseView {
            childs: self.childs@,
            fact_types: self.fact_types@,
            familys: self.familys@,
            master_sources: self.master_sources@,
            medias: self.medias@,
            persons: person_views(self.persons@),
            source_repos: self.source_repos@,
        }
    }
}

impl Default for ApiResponse {
    /// The response that holds nothing.
    fn default() -> (empty: Self)
        ensures
            empty@ == response(Seq::empty()),
    {
        let empty = ApiResponse {
            childs: Vec::new(),
            fact_types: Vec::new(),
            familys: Vec::new(),
            master_sources: Vec::new(),
            medias: Vec::new(),
            persons: Vec::new(),
            source_repos: Vec::new(),
        };
        assert(person_views(empty.persons@) =~= Seq::<PersonView>::empty());
        empty
    }
}

/// What has been mapped so far, while the trees of a forest are mapped in their order.
pub struct Mapping {
    pub childs: Seq<Child>,
    pub familys: Seq<Family>,
    pub persons: Seq<PersonView>,
    /// The number of the person that each cross-reference label stands for.
    pub ids: Map<Seq<char>, u32>,
    pub next_person: int,
    pub next_family: int,
    pub next_child: int,
}

/// The state before any tree has been mapped.
pub open spec fn nothing_mapped() -> Mapping {
    Mapping {
        childs: Seq::empty(),
        familys: Seq::empty(),
        persons: Seq::empty(),
        ids: Map::empty(),
        next_person: FIRST_PERSON_ID as int,
        next_family: FIRST_FAMILY_ID as int,
        next_child: FIRST_CHILD_ID as int,
    }
}

/// The number that a counter has to give, if it is not used up.
pub open spec fn available(next: int) -> Option<u32> {
    if next <= u32::MAX {
        Some(next as u32)
    } else {
        None
    }
}

/// Maps an individual. It becomes a person where it has a label, the lines below it
/// give a gender and a date of creation, and a number is left; the person is then
/// registered under the label.
pub open spec fn map_individual(state: Mapping, node: NodeView) -> Mapping {
    match (node.xref_id, person_scan(node.children), available(state.next_person)) {
        (Some(label), Ok(builder), Some(id)) => match built_person(
            PersonBuilderView { id: Some(id), ..builder },
        ) {
            Ok(person) => Mapping {
                persons: state.persons.push(person),
                ids: state.ids.insert(label, id),
                next_person: state.next_person + 1,
                ..state
            },
            Err(_) => state,
        },
        _ => state,
    }
}

/// What has been read below a family so far.
pub struct FamilyScan {
    pub builder: FamilyBuilder,
    pub childs: Seq<Child>,
    pub next_child: int,
}

/// The person that the value of a line points to, where the label is registered.
pub open spec fn resolved(ids: Map<Seq<char>, u32>, child: NodeView) -> Option<u32> {
    match child.line_value {
        Some(label) => if ids.contains_key(label) {
            Some(ids[label])
        } else {
            None
        },
        None => None,
    }
}

/// The state after one more line below a family has been read. A change line that gives
/// a date sets the date of creation. A husband or wife line whose value points to a
/// person sets father or mother. A child line whose value points to a person adds a
/// child row, where the family has a number and a number is left for the row. Any other
/// line changes nothing.
pub open spec fn family_step(
    scan: FamilyScan,
    child: NodeView,
    ids: Map<Seq<char>, u32>,
) -> FamilyScan {
    match child.tag {
        TagView::Known(GedcomLineTag::Change) => match change_date_time(child) {
            Ok(date_created) => FamilyScan {
                builder: FamilyBuilder { date_created: Some(date_created), ..scan.builder },
                ..scan
            },
            Err(_) => scan,
        },
        TagView::Known(GedcomLineTag::Child) => match (
            resolved(ids, child),
            scan.builder.id,
            available(scan.next_child),
        ) {
            (Some(person_id), Some(family_id), Some(id)) => FamilyScan {
                childs: scan.childs.push(Child::row(person_id, id, family_id)),
                next_child: scan.next_child + 1,
                ..scan
            },
            _ => scan,
        },
        TagView::Known(GedcomLineTag::Husband) => match resolved(ids, child) {
            Some(person_id) => FamilyScan {
                builder: FamilyBuilder { father_id: Some(person_id), ..scan.builder },
                ..scan
            },
            None => scan,
        },
        TagView::Known(GedcomLineTag::Wife) => match resolved(ids, child) {
            Some(person_id) => FamilyScan {
                builder: FamilyBuilder { mother_id: Some(person_id), ..scan.builder },
                ..scan
            },
            None => scan,
        },
        _ => scan,
    }
}

/// The state after the lines below a family have been read in their order.
pub open spec fn family_scan(
    start: FamilyScan,
    children: Seq<NodeView>,
    ids: Map<Seq<char>, u32>,
) -> FamilyScan
    decreases children.len(),
{
    if children.len() == 0 {
        start
    } else {
        family_step(family_scan(start, children.drop_last(), ids), children.last(), ids)
    }
}

/// Maps a family. Its child rows are added as the lines below it are read; the family
/// itself is added where date of creation, father, mother and a number are all there.
/// A family that is left out keeps its child rows, and its number goes to the next.
pub open spec fn map_family(state: Mapping, node: NodeView) -> Mapping {
    let start = FamilyScan {
        builder: FamilyBuilder { id: available(state.next_family), ..FamilyBuilder::empty() },
        childs: state.childs,
        next_child: state.next_child,
    };
    let scan = family_scan(start, node.children, state.ids);
    match scan.builder.built() {
        Ok(family) => Mapping {
            childs: scan.childs,
            next_child: scan.next_child,
            familys: state.familys.push(family),
            next_family: state.next_family + 1,
            ..state
        },
        Err(_) => Mapping { childs: scan.childs, next_child: scan.next_child, ..state },
    }
}

/// Maps one tree: an individual, a family, or a record that is not mapped.
pub open spec fn map_root(state: Mapping, node: NodeView) -> Mapping {
    match node.tag {
        TagView::Known(GedcomLineTag::Individual) => map_individual(state, node),
        TagView::Known(GedcomLineTag::Family) => map_family(state, node),
        _ => state,
    }
}

/// The state after the trees have been mapped in their order.
pub open spec fn map_roots(nodes: Seq<NodeView>) -> Mapping
    decreases nodes.len(),
{
    if nodes.len() == 0 {
        nothing_mapped()
    } else {
        map_root(map_roots(nodes.drop_last()), nodes.last())
    }
}

/// The response for a forest.
pub open spec fn response(nodes: Seq<NodeView>) -> ApiResponseView {
    ApiResponseView {
        childs: map_roots(nodes).childs,
        fact_types: Seq::empty(),
        familys: map_roots(nodes).familys,
        master_sources: Seq::empty(),
        medias: Seq::empty(),
        persons: map_roots(nodes).persons,
        source_repos: Seq::empty(),
    }
}

/// The counters stay in the range in which the next number can be told.
pub open spec fn counters_in_range(state: Mapping) -> bool {
    &&& FIRST_PERSON_ID <= state.next_person <= u32::MAX + 1
    &&& FIRST_FAMILY_ID <= state.next_family <= u32::MAX + 1
    &&& FIRST_CHILD_ID <= state.next_child <= u32::MAX + 1
}

/// The number that a counter has to give.
fn next_id(next: u64) -> (id: Option<u32>)
    ensures
        id == available(next as int),
{
    if next <= u32::MAX as u64 {
        Some(next as u32)
    } else {
        None
    }
}

/// The person that the value of a line points to.
fn resolve(ids: &StringHashMap<u32>, child: &GedcomTreeNode) -> (person_id: Option<u32>)
    ensures
        person_id == resolved(ids@, child@),
{
    match child.line_value() {
        Some(label) => match ids.get(label.as_str()) {
            Some(person_id) => Some(*person_id),
            None => None,
        },
        None => None,
    }
}

impl From<GedcomTree> for ApiResponse {
    /// Maps the forest of a document, see [`response`].
    fn from(tree: GedcomTree) -> (mapped: ApiResponse)
        ensures
            mapped@ == response(tree@),
    {
        let mut person_id: u64 = FIRST_PERSON_ID;
        let mut family_id: u64 = FIRST_FAMILY_ID;
        let mut child_id: u64 = FIRST_CHILD_ID;
        let mut childs: Vec<Child> = Vec::new();
        let mut familys: Vec<Family> = Vec::new();
        let mut persons: Vec<Person> = Vec::new();
        let mut persons_id_map: StringHashMap<u32> = StringHashMap::new();
        let nodes = tree.nodes();
        let mut i: usize = 0;
        proof {
            lemma_node_views(nodes@);
            assert(tree@.take(0) =~= Seq::<NodeView>::empty());
            assert(person_views(persons@) =~= Seq::<PersonView>::empty());
        }
        while i < nodes.len()
            invariant
                i <= nodes.len(),
                tree@.len() == nodes.len(),
                forall|k: int| 0 <= k < nodes.len() ==> #[trigger] tree@[k] == nodes[k]@,
                counters_in_range(map_roots(tree@.take(i as int))),
                childs@ == map_roots(tree@.take(i as int)).childs,
                familys@ == map_roots(tree@.take(i as int)).familys,
                person_views(persons@) == map_roots(tree@.take(i as int)).persons,
                persons_id_map@ == map_roots(tree@.take(i as int)).ids,
                person_id == map_roots(tree@.take(i as int)).next_person,
                family_id == map_roots(tree@.take(i as int)).next_family,
                child_id == map_roots(tree@.take(i as int)).next_child,
            decreases nodes.len() - i,
        {
            let node = &nodes[i];
            let ghost state = map_roots(tree@.take(i as int));
            proof {
                assert(tree@.take(i + 1).drop_last() =~= tree@.take(i as int));
                assert(tree@.take(i + 1).last() == node@);
                assert(map_roots(tree@.take(i + 1)) == map_root(state, node@));
                lemma_node_views(node.children@);
            }
            match node.tag() {
                GedcomLineTag::Individual => {
                    if let Some(xref_id) = node.xref_id() {
                        if let Ok(builder) = PersonBuilder::try_from(node) {
                            if let Some(id) = next_id(person_id) {
                                let mut builder = builder;
                                builder.with_id(id);
                                if let Ok(person) = builder.build() {
                                    let ghost before = persons@;
                                    persons.push(person);
                                    persons_id_map.insert(xref_id.clone(), id);
                                    person_id += 1;
                                    assert(person_views(persons@) =~= person_views(before).push(
                                        person@,
                                    ));
                                }
                            }
                        }
                    }
                },
                GedcomLineTag::Family => {
                    let mut builder = Family::builder();
                    if let Some(id) = next_id(family_id) {
                        builder.with_id(id);
                    }
                    let ghost start = FamilyScan {
                        builder,
                        childs: childs@,
                        next_child: child_id as int,
                    };
                    let mut j: usize = 0;
                    proof {
                        assert(node@.children.take(0) =~= Seq::<NodeView>::empty());
                    }
                    while j < node.children.len()
                        invariant
                            j <= node.children.len(),
                            node@.children.len() == node.children.len(),
                            forall|k: int|
                                0 <= k < node.children.len() ==> #[trigger] node@.children[k]
                                    == node.children[k]@,
                            FIRST_CHILD_ID <= child_id <= u32::MAX + 1,
                            builder.id == start.builder.id,
                            builder == family_scan(
                                start,
                                node@.children.take(j as int),
                                persons_id_map@,
                            ).builder,
                            childs@ == family_scan(
                                start,
                                node@.children.take(j as int),
                                persons_id_map@,
                            ).childs,
                            child_id == family_scan(
                                start,
                                node@.children.take(j as int),
                                persons_id_map@,
                            ).next_child,
                        decreases node.children.len() - j,
                    {
                        let child = &node.children[j];
                        proof {
                            assert(node@.children.take(j + 1).drop_last() =~= node@.children.take(
                                j as int,
                            ));
                            assert(node@.children.take(j + 1).last() == child@);
                        }
                        match child.tag() {
                            GedcomLineTag::Change => {
                                if let Ok(date_created) = change_node_to_date_time(child) {
                                    builder.with_date_created(date_created);
                                }
                            },
                            GedcomLineTag::Child => {
                                if let Some(person_id) = resolve(&persons_id_map, child) {
                                    if let Some(family_id) = builder.id {
                                        if let Some(id) = next_id(child_id) {
                                            childs.push(Child::new(person_id, id, family_id));
                                            child_id += 1;
                                        }
                                    }
                                }
                            },
                            GedcomLineTag::Husband => {
                                if let Some(person_id) = resolve(&persons_id_map, child) {
                                    builder.with_father_id(person_id);
                                }
                            },
                            GedcomLineTag::Wife => {
                                if let Some(person_id) = resolve(&persons_id_map, child) {
                                    builder.with_mother_id(person_id);
                                }
                            },
                            _ => {},
                        }
                        j += 1;
                    }
                    assert(node@.children.take(j as int) =~= node@.children);
                    if let Ok(family) = builder.build() {
                        familys.push(family);
                        family_id += 1;
                    }
                },
                _ => {},
            }
            i += 1;
        }
        assert(tree@.take(i as int) =~= tree@);
        let placeholders = ApiResponse::default();
        ApiResponse {
            childs,
            familys,
            persons,
            fact_types: placeholders.fact_types,
            master_sources: placeholders.master_sources,
            medias: placeholders.medias,
            source_repos: placeholders.source_repos,
        }
    }
}

impl vstd::std_specs::convert::FromSpecImpl<GedcomTree> for ApiResponse {
    /// The response is told by its view, see the contract of `from`.
    open spec fn obeys_from_spec() -> bool {
        false
    }

    open spec fn from_spec(tree: GedcomTree) -> ApiResponse {
        arbitrary()
    }
}

/// Mapping is a function of the forest: two forests that hold the same lines in the same
/// arrangement are mapped to the same persons, families and child rows, in the same order
/// and with the same numbers.
pub proof fn lemma_mapping_is_deterministic(first: GedcomTree, second: GedcomTree)
    requires
        first@ == second@,
    ensures
        response(first@) == response(second@),
{
}

/// Whether a number is the number of a person that has been added.
pub open spec fn is_person(id: u32, next_person: int) -> bool {
    FIRST_PERSON_ID <= id < next_person
}

/// Whether the child rows are numbered from [`FIRST_CHILD_ID`] on without a gap, up to
/// the counter, and each is the row of a person that has been added.
pub open spec fn rows_in_order(childs: Seq<Child>, next_child: int, next_person: int) -> bool {
    &&& FIRST_CHILD_ID <= next_child <= u32::MAX + 1
    &&& childs.len() == next_child - FIRST_CHILD_ID
    &&& forall|i: int|
        0 <= i < childs.len() ==> (#[trigger] childs[i]).id == FIRST_CHILD_ID + i && is_person(
            childs[i].child_id,
            next_person,
        )
}

/// Whether every label stands for a person that has been added.
pub open spec fn labels_resolve(ids: Map<Seq<char>, u32>, next_person: int) -> bool {
    forall|label: Seq<char>| ids.contains_key(label) ==> is_person(#[trigger] ids[label], next_person)
}

/// Whether father and mother, where a builder holds them, are persons that have been
/// added.
pub open spec fn parents_resolve(builder: FamilyBuilder, next_person: int) -> bool {
    &&& builder.father_id matches Some(id) ==> is_person(id, next_person)
    &&& builder.mother_id matches Some(id) ==> is_person(id, next_person)
}

/// What holds of everything that has been mapped: persons, families and child rows are
/// numbered from the first number of their kind on, in the order in which they stand and
/// without a gap; the parents of a family and the child of a row are persons that have
/// been added, and so is the person behind every label.
pub open spec fn in_order(state: Mapping) -> bool {
    &&& counters_in_range(state)
    &&& state.persons.len() == state.next_person - FIRST_PERSON_ID
    &&& forall|i: int|
        0 <= i < state.persons.len() ==> (#[trigger] state.persons[i]).id == FIRST_PERSON_ID + i
    &&& state.familys.len() == state.next_family - FIRST_FAMILY_ID
    &&& forall|i: int|
        0 <= i < state.familys.len() ==> (#[trigger] state.familys[i]).id == FIRST_FAMILY_ID + i
            && is_person(state.familys[i].father_id, state.next_person) && is_person(
            state.familys[i].mother_id,
            state.next_person,
        )
    &&& rows_in_order(state.childs, state.next_child, state.next_person)
    &&& labels_resolve(state.ids, state.next_person)
}

/// One more line below a family keeps the child rows in order and the parents resolved,
/// and leaves the number of the family as it is.
proof fn lemma_family_step_keeps_order(
    scan: FamilyScan,
    child: NodeView,
    ids: Map<Seq<char>, u32>,
    next_person: int,
)
    requires
        rows_in_order(scan.childs, scan.next_child, next_person),
        parents_resolve(scan.builder, next_person),
        labels_resolve(ids, next_person),
    ensures
        rows_in_order(
            family_step(scan, child, ids).childs,
            family_step(scan, child, ids).next_child,
            next_person,
        ),
        parents_resolve(family_step(scan, child, ids).builder, next_person),
        family_step(scan, child, ids).builder.id == scan.builder.id,
{
    if let Some(label) = child.line_value {
        if ids.contains_key(label) {
            assert(is_person(ids[label], next_person));
        }
    }
    let after = family_step(scan, child, ids);
    assert forall|i: int| 0 <= i < after.childs.len() implies (#[trigger] after.childs[i]).id
        == FIRST_CHILD_ID + i && is_person(after.childs[i].child_id, next_person) by {
        if i < scan.childs.len() {
            assert(after.childs[i] == scan.childs[i]);
        }
    }
}

/// The lines below a family keep the child rows in order and the parents resolved, and
/// leave the number of the family as it is.
proof fn lemma_family_scan_keeps_order(
    start: FamilyScan,
    children: Seq<NodeView>,
    ids: Map<Seq<char>, u32>,
    next_person: int,
)
    requires
        rows_in_order(start.childs, start.next_child, next_person),
        parents_resolve(start.builder, next_person),
        labels_resolve(ids, next_person),
    ensures
        rows_in_order(
            family_scan(start, children, ids).childs,
            family_scan(start, children, ids).next_child,
            next_person,
        ),
        parents_resolve(family_scan(start, children, ids).builder, next_person),
        family_scan(start, children, ids).builder.id == start.builder.id,
    decreases children.len(),
{
    if children.len() > 0 {
        lemma_family_scan_keeps_order(start, children.drop_last(), ids, next_person);
        lemma_family_step_keeps_order(
            family_scan(start, children.drop_last(), ids),
            children.last(),
            ids,
            next_person,
        );
    }
}

/// Mapping an individual keeps everything in order.
proof fn lemma_individual_keeps_order(state: Mapping, node: NodeView)
    requires
        in_order(state),
    ensures
        in_order(map_individual(state, node)),
{
    let after = map_individual(state, node);
    if after != state {
        assert forall|i: int| 0 <= i < after.persons.len() implies (
        #[trigger] after.persons[i]).id == FIRST_PERSON_ID + i by {
            if i < state.persons.len() {
                assert(after.persons[i] == state.persons[i]);
            }
        }
        assert forall|i: int| 0 <= i < after.familys.len() implies (
        #[trigger] after.familys[i]).id == FIRST_FAMILY_ID + i && is_person(
            after.familys[i].father_id,
            after.next_person,
        ) && is_person(after.familys[i].mother_id, after.next_person) by {
            assert(after.familys[i] == state.familys[i]);
        }
        assert forall|i: int| 0 <= i < after.childs.len() implies (#[trigger] after.childs[i]).id
            == FIRST_CHILD_ID + i && is_person(after.childs[i].child_id, after.next_person) by {
            assert(after.childs[i] == state.childs[i]);
        }
        assert forall|label: Seq<char>| after.ids.contains_key(label) implies is_person(
            #[trigger] after.ids[label],
            after.next_person,
        ) by {
            if state.ids.contains_key(label) {
                assert(is_person(state.ids[label], state.next_person));
            }
        }
    }
}

/// Mapping a family keeps everything in order.
proof fn lemma_family_keeps_order(state: Mapping, node: NodeView)
    requires
        in_order(state),
    ensures
        in_order(map_family(state, node)),
{
    let start = FamilyScan {
        builder: FamilyBuilder { id: available(state.next_family), ..FamilyBuilder::empty() },
        childs: state.childs,
        next_child: state.next_child,
    };
    lemma_family_scan_keeps_order(start, node.children, state.ids, state.next_person);
    let scan = family_scan(start, node.children, state.ids);
    let after = map_family(state, node);
    assert forall|i: int| 0 <= i < after.familys.len() implies (#[trigger] after.familys[i]).id
        == FIRST_FAMILY_ID + i && is_person(after.familys[i].father_id, after.next_person)
        && is_person(after.familys[i].mother_id, after.next_person) by {
        if i < state.familys.len() {
            assert(after.familys[i] == state.familys[i]);
        }
    }
}

/// Mapping keeps everything in order: see [`in_order`].
pub proof fn lemma_mapping_keeps_order(nodes: Seq<NodeView>)
    ensures
        in_order(map_roots(nodes)),
    decreases nodes.len(),
{
    if nodes.len() > 0 {
        lemma_mapping_keeps_order(nodes.drop_last());
        let state = map_roots(nodes.drop_last());
        lemma_individual_keeps_order(state, nodes.last());
        lemma_family_keeps_order(state, nodes.last());
    }
}

/// The child rows that the lines below a family give, in the order of the lines: one
/// row for each child line whose value points to a person, as long as the family has a
/// number and a number is left for the row. The rows carry the number of the family and
/// are numbered from `first` on.
pub open spec fn child_rows(
    children: Seq<NodeView>,
    ids: Map<Seq<char>, u32>,
    family_id: Option<u32>,
    first: int,
) -> Seq<Child>
    decreases children.len(),
{
    if children.len() == 0 {
        Seq::empty()
    } else {
        let before = child_rows(children.drop_last(), ids, family_id, first);
        match (
            children.last().tag,
            resolved(ids, children.last()),
            family_id,
            available(first + before.len()),
        ) {
            (
                TagView::Known(GedcomLineTag::Child),
                Some(person_id),
                Some(family_id),
                Some(id),
            ) => before.push(Child::row(person_id, id, family_id)),
            _ => before,
        }
    }
}

/// The rows of a family carry its number and are numbered one after the other, so no
/// two of them have the same number.
pub proof fn lemma_child_rows_are_numbered(
    children: Seq<NodeView>,
    ids: Map<Seq<char>, u32>,
    family_id: Option<u32>,
    first: int,
)
    requires
        0 <= first,
    ensures
        forall|i: int|
            0 <= i < child_rows(children, ids, family_id, first).len() ==> Some(
                (#[trigger] child_rows(children, ids, family_id, first)[i]).family_id,
            ) == family_id && child_rows(children, ids, family_id, first)[i].id == first + i,
        forall|i: int, j: int|
            0 <= i < j < child_rows(children, ids, family_id, first).len() ==> (
            #[trigger] child_rows(children, ids, family_id, first)[i]).id != (
            #[trigger] child_rows(children, ids, family_id, first)[j]).id,
    decreases children.len(),
{
    if children.len() > 0 {
        lemma_child_rows_are_numbered(children.drop_last(), ids, family_id, first);
        let before = child_rows(children.drop_last(), ids, family_id, first);
        let rows = child_rows(children, ids, family_id, first);
        assert forall|i: int| 0 <= i < rows.len() implies Some((#[trigger] rows[i]).family_id)
            == family_id && rows[i].id == first + i by {
            if i < before.len() {
                assert(rows[i] == before[i]);
            }
        }
    }
}

/// The lines below a family add the rows of [`child_rows`] behind the rows that were
/// there, and leave the number of the family as it is.
proof fn lemma_family_scan_adds_rows(
    start: FamilyScan,
    children: Seq<NodeView>,
    ids: Map<Seq<char>, u32>,
)
    ensures
        family_scan(start, children, ids).childs == start.childs + child_rows(
            children,
            ids,
            start.builder.id,
            start.next_child,
        ),
        family_scan(start, children, ids).next_child == start.next_child + child_rows(
            children,
            ids,
            start.builder.id,
            start.next_child,
        ).len(),
        family_scan(start, children, ids).builder.id == start.builder.id,
    decreases children.len(),
{
    if children.len() == 0 {
        assert(start.childs + Seq::<Child>::empty() =~= start.childs);
    } else {
        lemma_family_scan_adds_rows(start, children.drop_last(), ids);
        let before = child_rows(children.drop_last(), ids, start.builder.id, start.next_child);
        let rows = child_rows(children, ids, start.builder.id, start.next_child);
        assert(family_scan(start, children, ids).childs =~= start.childs + rows);
    }
}

/// Mapping a family adds one child row for each child line below it whose value points
/// to a person, in the order of the lines; every row that was there stays. The new rows
/// carry the number that the family gets where it is added, and each has a number of
/// its own. So two child lines of one family give two rows with one family number and
/// two row numbers.
pub proof fn lemma_family_gets_its_rows(state: Mapping, node: NodeView)
    requires
        counters_in_range(state),
    ensures
        map_family(state, node).childs == state.childs + child_rows(
            node.children,
            state.ids,
            available(state.next_family),
            state.next_child,
        ),
        map_family(state, node).familys == state.familys || (map_family(state, node).familys.len()
            == state.familys.len() + 1 && map_family(state, node).familys.last().id
            == state.next_family && map_family(state, node).familys.drop_last()
            == state.familys),
        forall|i: int|
            0 <= i < child_rows(
                node.children,
                state.ids,
                available(state.next_family),
                state.next_child,
            ).len() ==> (#[trigger] child_rows(
                node.children,
                state.ids,
                available(state.next_family),
                state.next_child,
            )[i]).family_id == state.next_family && child_rows(
                node.children,
                state.ids,
                available(state.next_family),
                state.next_child,
            )[i].id == state.next_child + i,
{
    let start = FamilyScan {
        builder: FamilyBuilder { id: available(state.next_family), ..FamilyBuilder::empty() },
        childs: state.childs,
        next_child: state.next_child,
    };
    lemma_family_scan_adds_rows(start, node.children, state.ids);
    lemma_child_rows_are_numbered(
        node.children,
        state.ids,
        available(state.next_family),
        state.next_child,
    );
    let after = map_family(state, node);
    if after.familys != state.familys {
        assert(after.familys.drop_last() =~= state.familys);
    }
}

/// The person that the lines with the given tag below a family point to: the person of
/// the last such line whose value points to one.
pub open spec fn parent(
    children: Seq<NodeView>,
    ids: Map<Seq<char>, u32>,
    tag: GedcomLineTag,
) -> Option<u32>
    decreases children.len(),
{
    if children.len() == 0 {
        None
    } else if children.last().tag == TagView::Known(tag) && resolved(ids, children.last())
        is Some {
        resolved(ids, children.last())
    } else {
        parent(children.drop_last(), ids, tag)
    }
}

/// The date of creation that the change lines below a family give: that of the last
/// change line that gives one.
pub open spec fn date_created(children: Seq<NodeView>) -> Option<DateTime>
    decreases children.len(),
{
    if children.len() == 0 {
        None
    } else if children.last().tag == TagView::Known(GedcomLineTag::Change) && change_date_time(
        children.last(),
    ) is Ok {
        Some(change_date_time(children.last())->Ok_0)
    } else {
        date_created(children.drop_last())
    }
}

/// The lines below a family set the date of creation, the father and the mother that
/// [`date_created`] and [`parent`] tell, and leave what was set before where they tell
/// none.
proof fn lemma_family_scan_sets_parts(
    start: FamilyScan,
    children: Seq<NodeView>,
    ids: Map<Seq<char>, u32>,
)
    ensures
        family_scan(start, children, ids).builder == (FamilyBuilder {
            date_created: if date_created(children) is Some {
                date_created(children)
            } else {
                start.builder.date_created
            },
            father_id: if parent(children, ids, GedcomLineTag::Husband) is Some {
                parent(children, ids, GedcomLineTag::Husband)
            } else {
                start.builder.father_id
            },
            id: start.builder.id,
            mother_id: if parent(children, ids, GedcomLineTag::Wife) is Some {
                parent(children, ids, GedcomLineTag::Wife)
            } else {
                start.builder.mother_id
            },
        }),
    decreases children.len(),
{
    if children.len() > 0 {
        lemma_family_scan_sets_parts(start, children.drop_last(), ids);
    }
}

/// A family is added exactly where a change line below it gives a date, a husband line
/// and a wife line each point to a person, and a number is left. It then holds the last
/// such date and persons and the next number of a family.
pub proof fn lemma_family_is_added(state: Mapping, node: NodeView)
    ensures
        map_family(state, node).familys == if date_created(node.children) is Some && parent(
            node.children,
            state.ids,
            GedcomLineTag::Husband,
        ) is Some && parent(node.children, state.ids, GedcomLineTag::Wife) is Some && available(
            state.next_family,
        ) is Some {
            state.familys.push(
                Family {
                    date_created: date_created(node.children)->0,
                    father_id: parent(node.children, state.ids, GedcomLineTag::Husband)->0,
                    id: available(state.next_family)->0,
                    mother_id: parent(node.children, state.ids, GedcomLineTag::Wife)->0,
                },
            )
        } else {
            state.familys
        },
{
    let start = FamilyScan {
        builder: FamilyBuilder { id: available(state.next_family), ..FamilyBuilder::empty() },
        childs: state.childs,
        next_child: state.next_child,
    };
    lemma_family_scan_sets_parts(start, node.children, state.ids);
}

/// A family with two child lines that point to persons, mapped behind any trees, adds
/// two child rows: they carry one family number and two row numbers, and the family,
/// where it is added, has that family number.
pub proof fn lemma_two_children_get_two_rows(nodes: Seq<NodeView>, family: NodeView)
    requires
        family.tag == TagView::Known(GedcomLineTag::Family),
        child_rows(
            family.children,
            map_roots(nodes).ids,
            available(map_roots(nodes).next_family),
            map_roots(nodes).next_child,
        ).len() == 2,
    ensures
        ({
            let before = map_roots(nodes);
            let after = map_roots(nodes.push(family));
            let first = after.childs[before.childs.len() as int];
            let second = after.childs[before.childs.len() as int + 1];
            &&& after.childs.len() == before.childs.len() + 2
            &&& after.childs.take(before.childs.len() as int) == before.childs
            &&& first.family_id == second.family_id
            &&& first.id != second.id
            &&& after.familys.len() == before.familys.len() + 1 ==> after.familys.last().id
                == first.family_id
        }),
{
    let before = map_roots(nodes);
    assert(nodes.push(family).drop_last() =~= nodes);
    assert(map_roots(nodes.push(family)) == map_family(before, family));
    lemma_mapping_keeps_order(nodes);
    lemma_family_gets_its_rows(before, family);
    let rows = child_rows(
        family.children,
        before.ids,
        available(before.next_family),
        before.next_child,
    );
    let after = map_family(before, family);
    assert(after.childs[before.childs.len() as int] == rows[0]);
    assert(after.childs[before.childs.len() as int + 1] == rows[1]);
    assert(after.childs.take(before.childs.len() as int) =~= before.childs);
}

} // verus!
