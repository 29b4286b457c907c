//! Persons.
use crate::models::date::{parse_date_time, parsed_date_time, DateTime};
use crate::models::gedcom::line::{GedcomLineTag, TagView};
use crate::models::gedcom::tree::{lemma_node_views, GedcomTreeNode, NodeView};
use crate::models::gedcom::{change_date_time, change_node_to_date_time};
use crate::models::relation::fact::{
    birth_scan, built_birth, name_scan, Birth, BirthView, Name, NameView,
};
use crate::text::same_text;
use crate::DATE_CREATED_FORMAT;
use vstd::prelude::*;

verus! {

pub const PERSON_HAS_NO_DATE_CREATED: &'static str = "Person must have a date_created";

pub const PERSON_HAS_NO_GENDER: &'static str = "Person must have a gender";

pub const PERSON_HAS_NO_ID: &'static str = "Person must have an id";

/// The gender of a person.
#[derive(Clone, Copy, Debug, PartialEq, Eq)]
pub enum Gender {
    Male,
    Female,
    Other,
}

impl Gender {
    /// The gender that a text stands for: `m` and `f`, in either case, are male and
    /// female, and every other text is neither.
    pub open spec fn of_text(text: Seq<char>) -> Gender {
        if text == "m"@ || text == "M"@ {
            Gender::Male
        } else if text == "f"@ || text == "F"@ {
            Gender::Female
        } else {
            Gender::Other
        }
    }

    /// The number that stands for the gender: 1, 2 and 3 in the order of the variants.
    pub open spec fn spec_code(self) -> u8 {
        match self {
            Gender::Male => 1,
            Gender::Female => 2,
            Gender::Other => 3,
        }
    }

    /// The number that stands for the gender.
    pub fn code(self) -> (code: u8)
        ensures
            code == self.spec_code(),
    {
        match self {
            Gender::Male => 1,
            Gender::Female => 2,
            Gender::Other => 3,
        }
    }
}

impl From<&str> for Gender {
    /// The gender that a text stands for, see [`Gender::of_text`].
    fn from(value: &str) -> (gender: Gender)
        ensures
            gender == Gender::of_text(value@),
    {
        if same_text(value, "m") || same_text(value, "M") {
            Gender::Male
        } else if same_text(value, "f") || same_text(value, "F") {
            Gender::Female
        } else {
            Gender::Other
        }
    }
}

impl vstd::std_specs::convert::FromSpecImpl<&str> for Gender {
    open spec fn obeys_from_spec() -> bool {
        true
    }

    open spec fn from_spec(value: &str) -> Gender {
        Gender::of_text(value@)
    }
}

/// The views of some births, in their order.
pub open spec fn birth_views(births: Seq<Birth>) -> Seq<BirthView> {
    Seq::new(births.len(), |i: int| births[i]@)
}

/// The views of some names, in their order.
pub open spec fn name_views(names: Seq<Name>) -> Seq<NameView> {
    Seq::new(names.len(), |i: int| names[i]@)
}

/// The views of the births that may have been collected.
pub open spec fn optional_births(births: Option<Vec<Birth>>) -> Option<Seq<BirthView>> {
    match births {
        Some(b) => Some(birth_views(b@)),
        None => None,
    }
}

/// The views of the names that may have been collected.
pub open spec fn optional_names(names: Option<Vec<Name>>) -> Option<Seq<NameView>> {
    match names {
        Some(n) => Some(name_views(n@)),
        None => None,
    }
}

/// A person.
#[derive(Debug, PartialEq, Eq)]
pub struct Person {
    pub date_created: DateTime,
    pub facts: Option<Vec<Birth>>,
    pub gender: Gender,
    pub id: u32,
    pub is_living: Option<bool>,
    pub names: Vec<Name>,
}

/// A person as contracts see it.
pub struct PersonView {
    pub date_created: DateTime,
    pub facts: Option<Seq<BirthView>>,
    pub gender: Gender,
    pub id: u32,
    pub is_living: Option<bool>,
    pub names: Seq<NameView>,
}

impl View for Person {
    type V = PersonView;

    open spec fn view(&self) -> PersonView {
        PersonView {
            date_created: self.date_created,
            facts: optional_births(self.facts),
            gender: self.gender,
            id: self.id,
            is_living: self.is_living,
            names: name_views(self.names@),
        }
    }
}

impl Person {
    /// A builder with nothing set.
    pub fn builder() -> (builder: PersonBuilder)
        ensures
            builder@ == no_person(),
    {
        PersonBuilder::new()
    }

    pub fn id(&self) -> (id: u32)
        ensures
            id == self.id,
    {
        self.id
    }
}

/// Collects the parts of a person; `build` asks for a date, a gender and a number.
#[derive(Debug)]
pub struct PersonBuilder {
    pub date_created: Option<DateTime>,
    pub facts: Option<Vec<Birth>>,
    pub gender: Option<Gender>,
    pub id: Option<u32>,
    pub is_living: Option<bool>,
    pub names: Option<Vec<Name>>,
}

/// What a [`PersonBuilder`] holds, as contracts see it.
pub struct PersonBuilderView {
    pub date_created: Option<DateTime>,
    pub facts: Option<Seq<BirthView>>,
    pub gender: Option<Gender>,
    pub id: Option<u32>,
    pub is_living: Option<bool>,
    pub names: Option<Seq<NameView>>,
}

impl View for PersonBuilder {
    type V = PersonBuilderView;

    open spec fn view(&self) -> PersonBuilderView {
        PersonBuilderView {
            date_created: self.date_created,
            facts: optional_births(self.facts),
            gender: self.gender,
            id: self.id,
            is_living: self.is_living,
            names: optional_names(self.names),
        }
    }
}

/// The builder of a person with nothing set.
pub open spec fn no_person() -> PersonBuilderView {
    PersonBuilderView {
        date_created: None,
        facts: None,
        gender: None,
        id: None,
        is_living: None,
        names: None,
    }
}

/// The builder with one more birth.
pub open spec fn with_birth_added(builder: PersonBuilderView, birth: BirthView) -> PersonBuilderView {
    PersonBuilderView {
        facts: Some(
            match builder.facts {
                Some(facts) => facts.push(birth),
                None => seq![birth],
            },
        ),
        ..builder
    }
}

/// The builder with one more name.
pub open spec fn with_name_added(builder: PersonBuilderView, name: NameView) -> PersonBuilderView {
    PersonBuilderView {
        names: Some(
            match builder.names {
                Some(names) => names.push(name),
                None => seq![name],
            },
        ),
        ..builder
    }
}

/// The builder after a text has been offered as the date of creation: a text that
/// [`parsed_date_time`] reads under [`DATE_CREATED_FORMAT`] sets the date, any other
/// changes nothing.
pub open spec fn with_date_created_text(
    builder: PersonBuilderView,
    text: Seq<char>,
) -> PersonBuilderView {
    match parsed_date_time(text, DATE_CREATED_FORMAT@) {
        Some(date_created) => PersonBuilderView { date_created: Some(date_created), ..builder },
        None => builder,
    }
}

/// The person that a builder makes, or the message for the first part that is missing,
/// asked for in the order date, gender, number. The person is living, and has the names
/// and births that were collected.
pub open spec fn built_person(builder: PersonBuilderView) -> Result<PersonView, Seq<char>> {
    if builder.date_created is None {
        Err(PERSON_HAS_NO_DATE_CREATED@)
    } else if builder.gender is None {
        Err(PERSON_HAS_NO_GENDER@)
    } else if builder.id is None {
        Err(PERSON_HAS_NO_ID@)
    } else {
        Ok(
            PersonView {
                date_created: builder.date_created->0,
                facts: builder.facts,
                gender: builder.gender->0,
                id: builder.id->0,
                is_living: Some(true),
                names: match builder.names {
                    Some(names) => names,
                    None => Seq::empty(),
                },
            },
        )
    }
}

/// The builder after one more line below an individual has been read: a birth line adds
/// a birth, a name line a name, a sex line sets the gender from its value (from the
/// empty text where it has none), and a change line sets the date of creation or, where
/// it gives none, ends the reading with its message. Any other line changes nothing.
pub open spec fn person_step(builder: PersonBuilderView, child: NodeView) -> Result<
    PersonBuilderView,
    Seq<char>,
> {
    match child.tag {
        TagView::Known(GedcomLineTag::Birth) => Ok(
            with_birth_added(builder, built_birth(birth_scan(child.children))),
        ),
        TagView::Known(GedcomLineTag::Change) => match change_date_time(child) {
            Ok(date_created) => Ok(
                PersonBuilderView { date_created: Some(date_created), ..builder },
            ),
            Err(message) => Err(message),
        },
        TagView::Known(GedcomLineTag::Sex) => Ok(
            PersonBuilderView {
                gender: Some(
                    Gender::of_text(
                        match child.line_value {
                            Some(text) => text,
                            None => Seq::empty(),
                        },
                    ),
                ),
                ..builder
            },
        ),
        TagView::Known(GedcomLineTag::Name) => Ok(
            with_name_added(builder, name_scan(child.children)),
        ),
        _ => Ok(builder),
    }
}

/// The builder that the lines below an individual give, read in their order, or the
/// message of the first change line that gives no date.
pub open spec fn person_scan(children: Seq<NodeView>) -> Result<PersonBuilderView, Seq<char>>
    decreases children.len(),
{
    if children.len() == 0 {
        Ok(no_person())
    } else {
        match person_scan(children.drop_last()) {
            Ok(builder) => person_step(builder, children.last()),
            Err(message) => Err(message),
        }
    }
}

/// Once the reading has ended with a message, more lines do not change that.
pub proof fn lemma_person_scan_stops(children: Seq<NodeView>, count: int)
    requires
        0 <= count <= children.len(),
        person_scan(children.take(count)) is Err,
    ensures
        person_scan(children) == person_scan(children.take(count)),
    decreases children.len() - count,
{
    if count == children.len() {
        assert(children.take(count) =~= children);
    } else {
        assert(children.take(count + 1).drop_last() =~= children.take(count));
        lemma_person_scan_stops(children, count + 1);
    }
}

impl TryFrom<&GedcomTreeNode> for PersonBuilder {
    type Error = &'static str;

    /// Reads the lines below an individual, see [`person_scan`].
    fn try_from(node: &GedcomTreeNode) -> (r: Result<PersonBuilder, &'static str>)
        ensures
            match r {
                Ok(builder) => person_scan(node@.children) == Ok::<PersonBuilderView, Seq<char>>(
                    builder@,
                ),
                Err(message) => person_scan(node@.children) == Err::<
                    PersonBuilderView,
                    Seq<char>,
                >(message@),
            },
    {
        let mut builder = Person::builder();
        let mut i: usize = 0;
        proof {
            lemma_node_views(node.children@);
            assert(node@.children.take(0) =~= Seq::<NodeView>::empty());
        }
        while i < node.children.len()
            invariant
                i <= node.children.len(),
                node@.children.len() == node.children.len(),
                forall|k: int|
                    0 <= k < node.children.len() ==> #[trigger] node@.children[k]
                        == node.children[k]@,
                person_scan(node@.children.take(i as int)) == Ok::<PersonBuilderView, Seq<char>>(
                    builder@,
                ),
            decreases node.children.len() - i,
        {
            let child = &node.children[i];
            proof {
                assert(node@.children.take(i + 1).drop_last() =~= node@.children.take(i as int));
                assert(node@.children.take(i + 1).last() == child@);
            }
            match child.tag() {
                GedcomLineTag::Birth => {
                    let birth = Birth::from(child);
                    builder.with_birth(birth);
                },
                GedcomLineTag::Change => {
                    match change_node_to_date_time(child) {
                        Ok(date_created) => {
                            builder.with_date_created(date_created);
                        },
                        Err(message) => {
                            proof {
                                lemma_person_scan_stops(node@.children, i + 1);
                            }
                            return Err(message);
                        },
                    }
                },
                GedcomLineTag::Sex => {
                    let gender = match child.line_value() {
                        Some(sex) => Gender::from(sex.as_str()),
                        None => Gender::from(""),
                    };
                    proof {
                        reveal_strlit("");
                        assert(""@ =~= Seq::<char>::empty());
                    }
                    builder.with_gender(gender);
                },
                GedcomLineTag::Name => {
                    let name = Name::from(child);
                    builder.with_name(name);
                },
                _ => {},
            }
            i += 1;
        }
        assert(node@.children.take(i as int) =~= node@.children);
        Ok(builder)
    }
}

impl vstd::std_specs::convert::TryFromSpecImpl<&GedcomTreeNode> for PersonBuilder {
    /// The builder is told by its view, see the contract of `try_from`.
    open spec fn obeys_try_from_spec() -> bool {
        false
    }

    open spec fn try_from_spec(node: &GedcomTreeNode) -> Result<PersonBuilder, &'static str> {
        arbitrary()
    }
}

impl Default for PersonBuilder {
    fn default() -> (builder: Self)
        ensures
            builder@ == no_person(),
    {
        PersonBuilder {
            date_created: None,
            facts: None,
            gender: None,
            id: None,
            is_living: None,
            names: None,
        }
    }
}

impl PersonBuilder {
    fn new() -> (builder: Self)
        ensures
            builder@ == no_person(),
    {
        Self::default()
    }

    /// Makes the person, see [`built_person`]. Where a part is missing the builder stays
    /// as it is; otherwise the names and the births are taken out of it.
    pub fn build(&mut self) -> (r: Result<Person, &'static str>)
        ensures
            match r {
                Ok(person) => built_person(old(self)@) == Ok::<PersonView, Seq<char>>(person@)
                    && final(self)@ == (PersonBuilderView {
                    facts: None,
                    names: None,
                    ..old(self)@
                }),
                Err(message) => built_person(old(self)@) == Err::<PersonView, Seq<char>>(
                    message@,
                ) && *final(self) == *old(self),
            },
    {
        let date_created = match self.date_created {
            Some(date_created) => date_created,
            None => {
                return Err(PERSON_HAS_NO_DATE_CREATED);
            },
        };
        let gender = match self.gender {
            Some(gender) => gender,
            None => {
                return Err(PERSON_HAS_NO_GENDER);
            },
        };
        let id = match self.id {
            Some(id) => id,
            None => {
                return Err(PERSON_HAS_NO_ID);
            },
        };
        let names = match self.names.take() {
            Some(names) => names,
            None => Vec::new(),
        };
        let person = Person {
            date_created,
            gender,
            id,
            names,
            facts: self.facts.take(),
            is_living: Some(true),
        };
        assert(name_views(Seq::<Name>::empty()) =~= Seq::<NameView>::empty());
        Ok(person)
    }

    pub fn is_living(&mut self) -> (builder: &mut Self)
        ensures
            *builder == (PersonBuilder { is_living: Some(true), ..*old(self) }),
            *final(self) == *final(builder),
    {
        self.is_living = Some(true);
        self
    }

    pub fn with_birth(&mut self, birth: Birth) -> (builder: &mut Self)
        ensures
            builder@ == with_birth_added(old(self)@, birth@),
            *final(self) == *final(builder),
    {
        match self.facts.take() {
            Some(facts) => {
                let mut facts = facts;
                let ghost before = facts@;
                facts.push(birth);
                assert(birth_views(facts@) =~= birth_views(before).push(birth@));
                self.facts = Some(facts);
            },
            None => {
                let mut facts = Vec::new();
                facts.push(birth);
                assert(birth_views(facts@) =~= seq![birth@]);
                self.facts = Some(facts);
            },
        }
        self
    }

    /// Offers a text as the date of creation, see [`with_date_created_text`].
    pub fn with_date_created_from_str(&mut self, date_created: &str) -> (builder: &mut Self)
        ensures
            builder@ == with_date_created_text(old(self)@, date_created@),
            *final(self) == *final(builder),
    {
        match parse_date_time(date_created, DATE_CREATED_FORMAT) {
            Some(date_created) => self.with_date_created(date_created),
            None => self,
        }
    }

    pub fn with_date_created(&mut self, date_created: DateTime) -> (builder: &mut Self)
        ensures
            *builder == (PersonBuilder { date_created: Some(date_created), ..*old(self) }),
            *final(self) == *final(builder),
    {
        self.date_created = Some(date_created);
        self
    }

    pub fn with_gender(&mut self, gender: Gender) -> (builder: &mut Self)
        ensures
            *builder == (PersonBuilder { gender: Some(gender), ..*old(self) }),
            *final(self) == *final(builder),
    {
        self.gender = Some(gender);
        self
    }

    pub fn with_id(&mut self, id: u32) -> (builder: &mut Self)
        ensures
            *builder == (PersonBuilder { id: Some(id), ..*old(self) }),
            *final(self) == *final(builder),
    {
        self.id = Some(id);
        self
    }

    pub fn with_name(&mut self, name: Name) -> (builder: &mut Self)
        ensures
            builder@ == with_name_added(old(self)@, name@),
            *final(self) == *final(builder),
    {
        match self.names.take() {
            Some(names) => {
                let mut names = names;
                let ghost before = names@;
                names.push(name);
                assert(name_views(names@) =~= name_views(before).push(name@));
                self.names = Some(names);
            },
            None => {
                let mut names = Vec::new();
                names.push(name);
                assert(name_views(names@) =~= seq![name@]);
                self.names = Some(names);
            },
        }
        self
    }
}

} // verus!
