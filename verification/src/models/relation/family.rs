//! Families and the rows that join a child to a family.
use crate::models::date::DateTime;
use vstd::prelude::*;

verus! {

/// The relationship of a child to a parent by birth.
pub const BIOLOGICAL: u32 = 1;

pub const FAMILY_HAS_NO_DATE_CREATED: &'static str = "Family must have a date_created specified";

pub const FAMILY_HAS_NO_FATHER_ID: &'static str = "Family must have a father_id specified";

pub const FAMILY_HAS_NO_ID: &'static str = "Family must have an id specified";

pub const FAMILY_HAS_NO_MOTHER_ID: &'static str = "Family must have a mother_id specified";

/// A row that joins a person, as a child, to a family.
#[derive(Clone, Copy, Debug, PartialEq, Eq)]
pub struct Child {
    pub child_id: u32,
    pub family_id: u32,
    pub id: u32,
    pub relationship_to_father: u32,
    pub relationship_to_mother: u32,
}

impl Default for Child {
    fn default() -> (child: Self)
        ensures
            child == (Child {
                child_id: 0,
                family_id: 100,
                id: 1000,
                relationship_to_father: BIOLOGICAL,
                relationship_to_mother: BIOLOGICAL,
            }),
    {
        Child {
            child_id: 0,
            family_id: 100,
            id: 1000,
            relationship_to_father: BIOLOGICAL,
            relationship_to_mother: BIOLOGICAL,
        }
    }
}

impl Child {
    /// The row with the given numbers, a child by birth of both parents.
    pub open spec fn row(child_id: u32, id: u32, family_id: u32) -> Child {
        Child {
            child_id,
            family_id,
            id,
            relationship_to_father: BIOLOGICAL,
            relationship_to_mother: BIOLOGICAL,
        }
    }

    pub fn new(child_id: u32, id: u32, family_id: u32) -> (child: Self)
        ensures
            child == Self::row(child_id, id, family_id),
    {
        let defaults = Child::default();
        Child {
            child_id,
            id,
            family_id,
            relationship_to_father: defaults.relationship_to_father,
            relationship_to_mother: defaults.relationship_to_mother,
        }
    }
}

/// A family: its number, the numbers of father and mother, and when it was recorded.
#[derive(Clone, Copy, Debug, PartialEq, Eq)]
pub struct Family {
    pub date_created: DateTime,
    pub father_id: u32,
    pub id: u32,
    pub mother_id: u32,
}

impl Family {
    /// A builder with nothing set.
    pub fn builder() -> (builder: FamilyBuilder)
        ensures
            builder == FamilyBuilder::empty(),
    {
        FamilyBuilder::new()
    }

    pub fn id(&self) -> (id: u32)
        ensures
            id == self.id,
    {
        self.id
    }
}

/// Collects the parts of a family; `build` asks for all four.
#[derive(Clone, Copy)]
pub struct FamilyBuilder {
    pub date_created: Option<DateTime>,
    pub father_id: Option<u32>,
    pub id: Option<u32>,
    pub mother_id: Option<u32>,
}

impl Default for FamilyBuilder {
    fn default() -> (builder: Self)
        ensures
            builder == Self::empty(),
    {
        FamilyBuilder { date_created: None, father_id: None, id: None, mother_id: None }
    }
}

impl FamilyBuilder {
    /// The builder with nothing set.
    pub open spec fn empty() -> FamilyBuilder {
        FamilyBuilder { date_created: None, father_id: None, id: None, mother_id: None }
    }

    /// The family that `build` makes, or the message for the first part that is missing,
    /// asked for in the order date, father, number, mother.
    pub open spec fn built(self) -> Result<Family, Seq<char>> {
        if self.date_created is None {
            Err(FAMILY_HAS_NO_DATE_CREATED@)
        } else if self.father_id is None {
            Err(FAMILY_HAS_NO_FATHER_ID@)
        } else if self.id is None {
            Err(FAMILY_HAS_NO_ID@)
        } else if self.mother_id is None {
            Err(FAMILY_HAS_NO_MOTHER_ID@)
        } else {
            Ok(
                Family {
                    date_created: self.date_created->0,
                    father_id: self.father_id->0,
                    id: self.id->0,
                    mother_id: self.mother_id->0,
                },
            )
        }
    }

    /// What `build` leaves in the builder: each part is taken out in turn until one is
    /// found missing.
    pub open spec fn after_build(self) -> FamilyBuilder {
        if self.date_created is None {
            self
        } else if self.father_id is None {
            FamilyBuilder { date_created: None, ..self }
        } else if self.id is None {
            FamilyBuilder { date_created: None, father_id: None, ..self }
        } else {
            Self::empty()
        }
    }

    fn new() -> (builder: Self)
        ensures
            builder == Self::empty(),
    {
        Self::default()
    }

    /// Makes the family, see [`FamilyBuilder::built`] and [`FamilyBuilder::after_build`].
    pub fn build(&mut self) -> (r: Result<Family, &'static str>)
        ensures
            match r {
                Ok(family) => old(self).built() == Ok::<Family, Seq<char>>(family),
                Err(message) => old(self).built() == Err::<Family, Seq<char>>(message@),
            },
            *final(self) == old(self).after_build(),
    {
        let date_created = match self.date_created.take() {
            Some(date_created) => date_created,
            None => {
                return Err(FAMILY_HAS_NO_DATE_CREATED);
            },
        };
        let father_id = match self.father_id.take() {
            Some(father_id) => father_id,
            None => {
                return Err(FAMILY_HAS_NO_FATHER_ID);
            },
        };
        let id = match self.id.take() {
            Some(id) => id,
            None => {
                return Err(FAMILY_HAS_NO_ID);
            },
        };
        let mother_id = match self.mother_id.take() {
            Some(mother_id) => mother_id,
            None => {
                return Err(FAMILY_HAS_NO_MOTHER_ID);
            },
        };
        Ok(Family { date_created, father_id, id, mother_id })
    }

    pub fn with_date_created(&mut self, date_created: DateTime) -> (builder: &mut Self)
        ensures
            *builder == (FamilyBuilder { date_created: Some(date_created), ..*old(self) }),
            *final(self) == *final(builder),
    {
        self.date_created = Some(date_created);
        self
    }

    pub fn with_father_id(&mut self, father_id: u32) -> (builder: &mut Self)
        ensures
            *builder == (FamilyBuilder { father_id: Some(father_id), ..*old(self) }),
            *final(self) == *final(builder),
    {
        self.father_id = Some(father_id);
        self
    }

    pub fn with_id(&mut self, id: u32) -> (builder: &mut Self)
        ensures
            *builder == (FamilyBuilder { id: Some(id), ..*old(self) }),
            *final(self) == *final(builder),
    {
        self.id = Some(id);
        self
    }

    pub fn with_mother_id(&mut self, mother_id: u32) -> (builder: &mut Self)
        ensures
            *builder == (FamilyBuilder { mother_id: Some(mother_id), ..*old(self) }),
            *final(self) == *final(builder),
    {
        self.mother_id = Some(mother_id);
        self
    }
}

} // verus!
