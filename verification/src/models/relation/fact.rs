//! What is recorded of a person: names and births.
use crate::models::date::{parse_date, parsed_date, Date};
use crate::models::gedcom::line::{GedcomLineTag, TagView};
use crate::models::gedcom::tree::{lemma_node_views, GedcomTreeNode, NodeView};
use crate::text::{optional_text, same_text};
use vstd::prelude::*;

verus! {

/// The textual form of the date of a fact: day, abbreviated month and year.
pub const DATE_DETAIL_FORMAT: &'static str = "%-d %b %Y";

/// The text of the custom tag that marks a fact as the preferred one.
pub const PREFERRED_TAG: &'static str = "_PRIM";

/// The value with which the custom tag marks a fact as the preferred one.
pub const PREFERRED_VALUE: &'static str = "Y";

/// The kind of a fact.
#[derive(Clone, Copy, Debug, PartialEq, Eq)]
pub enum FactTypeId {
    Birth,
    Name,
}

impl FactTypeId {
    /// The number that stands for the kind: 405 for a birth, 100 for a name.
    pub open spec fn spec_code(self) -> u16 {
        match self {
            FactTypeId::Birth => 405,
            FactTypeId::Name => 100,
        }
    }

    /// The number that stands for the kind.
    pub fn code(self) -> (code: u16)
        ensures
            code == self.spec_code(),
    {
        match self {
            FactTypeId::Birth => 405,
            FactTypeId::Name => 100,
        }
    }
}

/// A place by its name.
#[derive(Debug, PartialEq, Eq)]
pub struct Place {
    pub place_name: String,
}

impl View for Place {
    type V = Seq<char>;

    open spec fn view(&self) -> Seq<char> {
        self.place_name@
    }
}

impl Place {
    pub fn new(place_name: &str) -> (place: Self)
        ensures
            place@ == place_name@,
    {
        Place { place_name: place_name.to_owned() }
    }
}

/// The view of an optional place.
pub open spec fn optional_place(place: Option<Place>) -> Option<Seq<char>> {
    match place {
        Some(p) => Some(p@),
        None => None,
    }
}

/// The names of a person.
#[derive(Debug, PartialEq, Eq)]
pub struct Name {
    pub fact_type_id: FactTypeId,
    pub given_names: Option<String>,
    pub surnames: Option<String>,
}

/// A name as contracts see it.
pub struct NameView {
    pub fact_type_id: FactTypeId,
    pub given_names: Option<Seq<char>>,
    pub surnames: Option<Seq<char>>,
}

impl View for Name {
    type V = NameView;

    open spec fn view(&self) -> NameView {
        NameView {
            fact_type_id: self.fact_type_id,
            given_names: optional_text(self.given_names),
            surnames: optional_text(self.surnames),
        }
    }
}

/// The name with nothing set.
pub open spec fn no_name() -> NameView {
    NameView { fact_type_id: FactTypeId::Name, given_names: None, surnames: None }
}

/// The name after one more line below a name line has been read: a line of given names
/// or of surnames that holds a value sets that part anew, any other line changes nothing.
pub open spec fn name_step(name: NameView, child: NodeView) -> NameView {
    match (child.tag, child.line_value) {
        (TagView::Known(GedcomLineTag::GivenName), Some(text)) => NameView {
            given_names: Some(text),
            ..name
        },
        (TagView::Known(GedcomLineTag::Surname), Some(text)) => NameView {
            surnames: Some(text),
            ..name
        },
        _ => name,
    }
}

/// The name that the lines below a name line give, read in their order.
pub open spec fn name_scan(children: Seq<NodeView>) -> NameView
    decreases children.len(),
{
    if children.len() == 0 {
        no_name()
    } else {
        name_step(name_scan(children.drop_last()), children.last())
    }
}

impl From<&GedcomTreeNode> for Name {
    /// The name that a name line and the lines below it give.
    fn from(node: &GedcomTreeNode) -> (name: Name)
        ensures
            name@ == name_scan(node@.children),
    {
        let mut builder = Name::builder();
        let mut i: usize = 0;
        proof {
            lemma_node_views(node.children@);
            assert(node@.children.take(0) =~= Seq::<NodeView>::empty());
        }
        while i < node.children.len()
            invariant
                i <= node.children.len(),
                node@.children.len() == node.children.len(),
                forall|k: int|
                    0 <= k < node.children.len() ==> #[trigger] node@.children[k]
                        == node.children[k]@,
                builder@ == name_scan(node@.children.take(i as int)),
            decreases node.children.len() - i,
        {
            let child = &node.children[i];
            proof {
                assert(node@.children.take(i + 1).drop_last() =~= node@.children.take(i as int));
                assert(node@.children.take(i + 1).last() == child@);
            }
            match child.tag() {
                GedcomLineTag::GivenName => {
                    if let Some(given_names) = child.line_value() {
                        builder.with_given_names(given_names.as_str());
                    }
                },
                GedcomLineTag::Surname => {
                    if let Some(surnames) = child.line_value() {
                        builder.with_surnames(surnames.as_str());
                    }
                },
                _ => {},
            }
            i += 1;
        }
        assert(node@.children.take(i as int) =~= node@.children);
        builder.build()
    }
}

impl vstd::std_specs::convert::FromSpecImpl<&GedcomTreeNode> for Name {
    /// The name is told by its view, see the contract of `from`.
    open spec fn obeys_from_spec() -> bool {
        false
    }

    open spec fn from_spec(node: &GedcomTreeNode) -> Name {
        arbitrary()
    }
}

impl Name {
    /// A builder with nothing set.
    pub fn builder() -> (builder: NameBuilder)
        ensures
            builder@ == no_name(),
    {
        NameBuilder::new()
    }
}

/// Collects the parts of a name.
pub struct NameBuilder {
    pub given_names: Option<String>,
    pub surnames: Option<String>,
}

impl View for NameBuilder {
    type V = NameView;

    open spec fn view(&self) -> NameView {
        NameView {
            fact_type_id: FactTypeId::Name,
            given_names: optional_text(self.given_names),
            surnames: optional_text(self.surnames),
        }
    }
}

impl Default for NameBuilder {
    fn default() -> (builder: Self)
        ensures
            builder@ == no_name(),
    {
        NameBuilder { given_names: None, surnames: None }
    }
}

impl NameBuilder {
    fn new() -> (builder: Self)
        ensures
            builder@ == no_name(),
    {
        Self::default()
    }

    /// Makes the name and empties the builder.
    pub fn build(&mut self) -> (name: Name)
        ensures
            name.fact_type_id == FactTypeId::Name,
            name.given_names == old(self).given_names,
            name.surnames == old(self).surnames,
            final(self)@ == no_name(),
    {
        Name {
            fact_type_id: FactTypeId::Name,
            given_names: self.given_names.take(),
            surnames: self.surnames.take(),
        }
    }

    pub fn with_given_names(&mut self, given_names: &str) -> (builder: &mut Self)
        ensures
            builder@ == (NameView { given_names: Some(given_names@), ..old(self)@ }),
            builder.surnames == old(self).surnames,
            *final(self) == *final(builder),
    {
        self.given_names = Some(given_names.to_owned());
        self
    }

    pub fn with_surnames(&mut self, surnames: &str) -> (builder: &mut Self)
        ensures
            builder@ == (NameView { surnames: Some(surnames@), ..old(self)@ }),
            builder.given_names == old(self).given_names,
            *final(self) == *final(builder),
    {
        self.surnames = Some(surnames.to_owned());
        self
    }
}

/// A birth.
#[derive(Debug, PartialEq, Eq)]
pub struct Birth {
    pub date_detail: Option<Date>,
    pub fact_type_id: FactTypeId,
    pub place: Option<Place>,
    pub preferred: bool,
}

/// A birth as contracts see it.
pub struct BirthView {
    pub date_detail: Option<Date>,
    pub fact_type_id: FactTypeId,
    pub place: Option<Seq<char>>,
    pub preferred: bool,
}

impl View for Birth {
    type V = BirthView;

    open spec fn view(&self) -> BirthView {
        BirthView {
            date_detail: self.date_detail,
            fact_type_id: self.fact_type_id,
            place: optional_place(self.place),
            preferred: self.preferred,
        }
    }
}

/// What a [`BirthBuilder`] holds, as contracts see it.
pub struct BirthBuilderView {
    pub date_detail: Option<Date>,
    pub place: Option<Seq<char>>,
    pub preferred: Option<bool>,
}

/// The builder of a birth with nothing set.
pub open spec fn no_birth() -> BirthBuilderView {
    BirthBuilderView { date_detail: None, place: None, preferred: None }
}

/// The birth that a builder makes: preferred where that has been said, and not otherwise.
pub open spec fn built_birth(builder: BirthBuilderView) -> BirthView {
    BirthView {
        date_detail: builder.date_detail,
        fact_type_id: FactTypeId::Birth,
        place: builder.place,
        preferred: builder.preferred == Some(true),
    }
}

/// The builder after a text has been offered as the date: a text that
/// [`parsed_date`] reads under [`DATE_DETAIL_FORMAT`] sets the date, any other changes
/// nothing.
pub open spec fn with_date_text(builder: BirthBuilderView, text: Seq<char>) -> BirthBuilderView {
    match parsed_date(text, DATE_DETAIL_FORMAT@) {
        Some(date) => BirthBuilderView { date_detail: Some(date), ..builder },
        None => builder,
    }
}

/// The builder after one more line below a birth line has been read. The custom tag
/// [`PREFERRED_TAG`] with the value [`PREFERRED_VALUE`] marks the birth as preferred; a
/// date line with a value offers that value as the date; a place line with a value sets
/// the place; any other line changes nothing.
pub open spec fn birth_step(builder: BirthBuilderView, child: NodeView) -> BirthBuilderView {
    match child.tag {
        TagView::Custom(text) => if text == PREFERRED_TAG@ && child.line_value == Some(
            PREFERRED_VALUE@,
        ) {
            BirthBuilderView { preferred: Some(true), ..builder }
        } else {
            builder
        },
        TagView::Known(GedcomLineTag::Date) => match child.line_value {
            Some(text) => with_date_text(builder, text),
            None => builder,
        },
        TagView::Known(GedcomLineTag::Place) => match child.line_value {
            Some(text) => BirthBuilderView { place: Some(text), ..builder },
            None => builder,
        },
        _ => builder,
    }
}

/// The builder that the lines below a birth line give, read in their order.
pub open spec fn birth_scan(children: Seq<NodeView>) -> BirthBuilderView
    decreases children.len(),
{
    if children.len() == 0 {
        no_birth()
    } else {
        birth_step(birth_scan(children.drop_last()), children.last())
    }
}

impl From<&GedcomTreeNode> for Birth {
    /// The birth that a birth line and the lines below it give.
    fn from(node: &GedcomTreeNode) -> (birth: Birth)
        ensures
            birth@ == built_birth(birth_scan(node@.children)),
    {
        let mut builder = Birth::builder();
        let mut i: usize = 0;
        proof {
            lemma_node_views(node.children@);
            assert(node@.children.take(0) =~= Seq::<NodeView>::empty());
        }
        while i < node.children.len()
            invariant
                i <= node.children.len(),
                node@.children.len() == node.children.len(),
                forall|k: int|
                    0 <= k < node.children.len() ==> #[trigger] node@.children[k]
                        == node.children[k]@,
                builder@ == birth_scan(node@.children.take(i as int)),
            decreases node.children.len() - i,
        {
            let child = &node.children[i];
            proof {
                assert(node@.children.take(i + 1).drop_last() =~= node@.children.take(i as int));
                assert(node@.children.take(i + 1).last() == child@);
            }
            match child.tag() {
                GedcomLineTag::Custom(custom) => {
                    if same_text(custom.as_str(), PREFERRED_TAG) {
                        if let Some(value) = child.line_value() {
                            if same_text(value.as_str(), PREFERRED_VALUE) {
                                builder.is_preferred();
                            }
                        }
                    }
                },
                GedcomLineTag::Date => {
                    if let Some(date) = child.line_value() {
                        builder.with_date_detail_from_str(date.as_str());
                    }
                },
                GedcomLineTag::Place => {
                    if let Some(place) = child.line_value() {
                        let place = Place::new(place.as_str());
                        builder.with_place(place);
                    }
                },
                _ => {},
            }
            i += 1;
        }
        assert(node@.children.take(i as int) =~= node@.children);
        builder.build()
    }
}

impl vstd::std_specs::convert::FromSpecImpl<&GedcomTreeNode> for Birth {
    /// The birth is told by its view, see the contract of `from`.
    open spec fn obeys_from_spec() -> bool {
        false
    }

    open spec fn from_spec(node: &GedcomTreeNode) -> Birth {
        arbitrary()
    }
}

impl Birth {
    /// A builder with nothing set.
    pub fn builder() -> (builder: BirthBuilder)
        ensures
            builder@ == no_birth(),
    {
        BirthBuilder::new()
    }
}

/// Collects the parts of a birth.
pub struct BirthBuilder {
    pub date_detail: Option<Date>,
    pub place: Option<Place>,
    pub preferred: Option<bool>,
}

impl View for BirthBuilder {
    type V = BirthBuilderView;

    open spec fn view(&self) -> BirthBuilderView {
        BirthBuilderView {
            date_detail: self.date_detail,
            place: optional_place(self.place),
            preferred: self.preferred,
        }
    }
}

impl Default for BirthBuilder {
    fn default() -> (builder: Self)
        ensures
            builder@ == no_birth(),
    {
        BirthBuilder { date_detail: None, place: None, preferred: None }
    }
}

impl BirthBuilder {
    fn new() -> (builder: Self)
        ensures
            builder@ == no_birth(),
    {
        Self::default()
    }

    /// Makes the birth and takes the date and the place out of the builder. The birth is
    /// preferred where `is_preferred` has been called.
    pub fn build(&mut self) -> (birth: Birth)
        ensures
            birth@ == built_birth(old(self)@),
            final(self)@ == (BirthBuilderView { preferred: old(self).preferred, ..no_birth() }),
    {
        let preferred = match self.preferred {
            Some(preferred) => preferred,
            None => false,
        };
        Birth {
            date_detail: self.date_detail.take(),
            fact_type_id: FactTypeId::Birth,
            place: self.place.take(),
            preferred,
        }
    }

    pub fn is_preferred(&mut self) -> (builder: &mut Self)
        ensures
            builder@ == (BirthBuilderView { preferred: Some(true), ..old(self)@ }),
            *final(self) == *final(builder),
    {
        self.preferred = Some(true);
        self
    }

    /// Sets the date.
    pub fn with_date_detail(&mut self, date_detail: Date) -> (builder: &mut Self)
        ensures
            builder@ == (BirthBuilderView { date_detail: Some(date_detail), ..old(self)@ }),
            *final(self) == *final(builder),
    {
        self.date_detail = Some(date_detail);
        self
    }

    /// Offers a text as the date, see [`with_date_text`].
    pub fn with_date_detail_from_str(&mut self, date_detail: &str) -> (builder: &mut Self)
        ensures
            builder@ == with_date_text(old(self)@, date_detail@),
            *final(self) == *final(builder),
    {
        match parse_date(date_detail, DATE_DETAIL_FORMAT) {
            Some(date_detail) => self.with_date_detail(date_detail),
            None => self,
        }
    }

    pub fn with_place(&mut self, place: Place) -> (builder: &mut Self)
        ensures
            builder@ == (BirthBuilderView { place: Some(place@), ..old(self)@ }),
            *final(self) == *final(builder),
    {
        self.place = Some(place);
        self
    }
}

} // verus!
