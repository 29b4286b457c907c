//! One line of a document: its level, its tag from the closed vocabulary, and its optional
//! cross-reference label and value.
use crate::text::{ascii_uppercase, optional_text, same_text, to_ascii_uppercase};
use vstd::prelude::*;

verus! {

/// What `GedcomLineBuilder::build` reports when no level was given.
pub const MISSING_LEVEL: &'static str = "GedcomLine must have a level";

/// What `GedcomLineBuilder::build` reports when no tag was given.
pub const MISSING_TAG: &'static str = "GedcomLine must have a tag";

/// The pattern that the text of a custom tag has to match as a whole.
pub const CUSTOM_TAG_PATTERN: &'static str = "^(_[A-Za-z0-9_]+)$";

/// What `GedcomLineTag::from_str` reports for a text that is no tag.
pub const INVALID_TAG: &'static str =
    "Custom tag value must start with _ and contain only A-Z, a-z, 0-9 and _";

/// The semantic role of a line. Every mnemonic of the vocabulary has one variant;
/// `Custom` holds the text of a vendor extension as it was written.
#[derive(Debug, PartialEq, Eq)]
pub enum GedcomLineTag {
    Abbreviation,
    Address,
    Address1,
    Address2,
    Adoption,
    AncestralFileNumber,
    Age,
    Agency,
    Alias,
    Ancestors,
    AncestorInterest,
    Annulment,
    Associates,
    Author,
    BaptismLds,
    Baptism,
    BarMitzvah,
    BasMitzvah,
    Birth,
    Blessing,
    Burial,
    CallNumber,
    Caste,
    Cause,
    Census,
    Change,
    Character,
    Child,
    Christening,
    AdultChristening,
    City,
    Concatenation,
    Confirmation,
    ConfirmationLds,
    Continued,
    Copyright,
    Corporate,
    Cremation,
    Country,
    Custom(String),
    Data,
    Date,
    Death,
    Descendants,
    DescendantInterest,
    Destination,
    Divorce,
    DivorceFiled,
    PhysicalDescription,
    Education,
    Email,
    Emigration,
    Endowment,
    Engagement,
    Event,
    Fact,
    Family,
    FamilyChild,
    FamilyFile,
    FamilySpouse,
    Facsimile,
    FirstCommunion,
    File,
    Format,
    Phonetic,
    Gedcom,
    GivenName,
    Graduation,
    Header,
    Husband,
    IdentityNumber,
    Immigration,
    Individual,
    Language,
    Latitude,
    Longitude,
    PlaceMap,
    MarriageBanns,
    MarriageContract,
    MarriageLicense,
    Marriage,
    MarriageSettlement,
    Media,
    Name,
    Nationality,
    Naturalisation,
    ChildrenCount,
    Nickname,
    MarriageCount,
    Note,
    NamePrefix,
    NameSuffix,
    Object,
    Occupation,
    Ordinance,
    Ordination,
    Page,
    Pedigree,
    Phone,
    Place,
    PostalCode,
    Probate,
    Property,
    Publication,
    QualityOfData,
    Reference,
    Relationship,
    Religion,
    Repository,
    Residence,
    Restriction,
    Retirement,
    RecordFileNumber,
    RecordIdNumber,
    Role,
    Romanised,
    Sex,
    SealingChild,
    SealingSpouse,
    Source,
    SurnamePrefix,
    SocialSecurityNumber,
    State,
    Status,
    Submitter,
    Submission,
    Surname,
    Temple,
    Text,
    Time,
    Title,
    Trailer,
    Type,
    Version,
    Wife,
    Will,
    Web,
}

/// A tag as contracts see it: a variant of the vocabulary, or the text of a custom tag.
pub enum TagView {
    /// A tag of the vocabulary; never `GedcomLineTag::Custom`.
    Known(GedcomLineTag),
    /// An extension tag with its text.
    Custom(Seq<char>),
}

impl View for GedcomLineTag {
    type V = TagView;

    open spec fn view(&self) -> TagView {
        match self {
            GedcomLineTag::Custom(text) => TagView::Custom(text@),
            _ => TagView::Known(*self),
        }
    }
}

impl Clone for GedcomLineTag {
    fn clone(&self) -> (copy: Self)
        ensures
            copy == *self,
    {
        match self {
            GedcomLineTag::Abbreviation => GedcomLineTag::Abbreviation,
            GedcomLineTag::Address => GedcomLineTag::Address,
            GedcomLineTag::Address1 => GedcomLineTag::Address1,
            GedcomLineTag::Address2 => GedcomLineTag::Address2,
            GedcomLineTag::Adoption => GedcomLineTag::Adoption,
            GedcomLineTag::AncestralFileNumber => GedcomLineTag::AncestralFileNumber,
            GedcomLineTag::Age => GedcomLineTag::Age,
            GedcomLineTag::Agency => GedcomLineTag::Agency,
            GedcomLineTag::Alias => GedcomLineTag::Alias,
            GedcomLineTag::Ancestors => GedcomLineTag::Ancestors,
            GedcomLineTag::AncestorInterest => GedcomLineTag::AncestorInterest,
            GedcomLineTag::Annulment => GedcomLineTag::Annulment,
            GedcomLineTag::Associates => GedcomLineTag::Associates,
            GedcomLineTag::Author => GedcomLineTag::Author,
            GedcomLineTag::BaptismLds => GedcomLineTag::BaptismLds,
            GedcomLineTag::Baptism => GedcomLineTag::Baptism,
            GedcomLineTag::BarMitzvah => GedcomLineTag::BarMitzvah,
            GedcomLineTag::BasMitzvah => GedcomLineTag::BasMitzvah,
            GedcomLineTag::Birth => GedcomLineTag::Birth,
            GedcomLineTag::Blessing => GedcomLineTag::Blessing,
            GedcomLineTag::Burial => GedcomLineTag::Burial,
            GedcomLineTag::CallNumber => GedcomLineTag::CallNumber,
            GedcomLineTag::Caste => GedcomLineTag::Caste,
            GedcomLineTag::Cause => GedcomLineTag::Cause,
            GedcomLineTag::Census => GedcomLineTag::Census,
            GedcomLineTag::Change => GedcomLineTag::Change,
            GedcomLineTag::Character => GedcomLineTag::Character,
            GedcomLineTag::Child => GedcomLineTag::Child,
            GedcomLineTag::Christening => GedcomLineTag::Christening,
            GedcomLineTag::AdultChristening => GedcomLineTag::AdultChristening,
            GedcomLineTag::City => GedcomLineTag::City,
            GedcomLineTag::Concatenation => GedcomLineTag::Concatenation,
            GedcomLineTag::Confirmation => GedcomLineTag::Confirmation,
            GedcomLineTag::ConfirmationLds => GedcomLineTag::ConfirmationLds,
            GedcomLineTag::Continued => GedcomLineTag::Continued,
            GedcomLineTag::Copyright => GedcomLineTag::Copyright,
            GedcomLineTag::Corporate => GedcomLineTag::Corporate,
            GedcomLineTag::Cremation => GedcomLineTag::Cremation,
            GedcomLineTag::Country => GedcomLineTag::Country,
            GedcomLineTag::Custom(text) => GedcomLineTag::Custom(text.clone()),
            GedcomLineTag::Data => GedcomLineTag::Data,
            GedcomLineTag::Date => GedcomLineTag::Date,
            GedcomLineTag::Death => GedcomLineTag::Death,
            GedcomLineTag::Descendants => GedcomLineTag::Descendants,
            GedcomLineTag::DescendantInterest => GedcomLineTag::DescendantInterest,
            GedcomLineTag::Destination => GedcomLineTag::Destination,
            GedcomLineTag::Divorce => GedcomLineTag::Divorce,
            GedcomLineTag::DivorceFiled => GedcomLineTag::DivorceFiled,
            GedcomLineTag::PhysicalDescription => GedcomLineTag::PhysicalDescription,
            GedcomLineTag::Education => GedcomLineTag::Education,
            GedcomLineTag::Email => GedcomLineTag::Email,
            GedcomLineTag::Emigration => GedcomLineTag::Emigration,
            GedcomLineTag::Endowment => GedcomLineTag::Endowment,
            GedcomLineTag::Engagement => GedcomLineTag::Engagement,
            GedcomLineTag::Event => GedcomLineTag::Event,
            GedcomLineTag::Fact => GedcomLineTag::Fact,
            GedcomLineTag::Family => GedcomLineTag::Family,
            GedcomLineTag::FamilyChild => GedcomLineTag::FamilyChild,
            GedcomLineTag::FamilyFile => GedcomLineTag::FamilyFile,
            GedcomLineTag::FamilySpouse => GedcomLineTag::FamilySpouse,
            GedcomLineTag::Facsimile => GedcomLineTag::Facsimile,
            GedcomLineTag::FirstCommunion => GedcomLineTag::FirstCommunion,
            GedcomLineTag::File => GedcomLineTag::File,
            GedcomLineTag::Format => GedcomLineTag::Format,
            GedcomLineTag::Phonetic => GedcomLineTag::Phonetic,
            GedcomLineTag::Gedcom => GedcomLineTag::Gedcom,
            GedcomLineTag::GivenName => GedcomLineTag::GivenName,
            GedcomLineTag::Graduation => GedcomLineTag::Graduation,
            GedcomLineTag::Header => GedcomLineTag::Header,
            GedcomLineTag::Husband => GedcomLineTag::Husband,
            GedcomLineTag::IdentityNumber => GedcomLineTag::IdentityNumber,
            GedcomLineTag::Immigration => GedcomLineTag::Immigration,
            GedcomLineTag::Individual => GedcomLineTag::Individual,
            GedcomLineTag::Language => GedcomLineTag::Language,
            GedcomLineTag::Latitude => GedcomLineTag::Latitude,
            GedcomLineTag::Longitude => GedcomLineTag::Longitude,
            GedcomLineTag::PlaceMap => GedcomLineTag::PlaceMap,
            GedcomLineTag::MarriageBanns => GedcomLineTag::MarriageBanns,
            GedcomLineTag::MarriageContract => GedcomLineTag::MarriageContract,
            GedcomLineTag::MarriageLicense => GedcomLineTag::MarriageLicense,
            GedcomLineTag::Marriage => GedcomLineTag::Marriage,
            GedcomLineTag::MarriageSettlement => GedcomLineTag::MarriageSettlement,
            GedcomLineTag::Media => GedcomLineTag::Media,
            GedcomLineTag::Name => GedcomLineTag::Name,
            GedcomLineTag::Nationality => GedcomLineTag::Nationality,
            GedcomLineTag::Naturalisation => GedcomLineTag::Naturalisation,
            GedcomLineTag::ChildrenCount => GedcomLineTag::ChildrenCount,
            GedcomLineTag::Nickname => GedcomLineTag::Nickname,
            GedcomLineTag::MarriageCount => GedcomLineTag::MarriageCount,
            GedcomLineTag::Note => GedcomLineTag::Note,
            GedcomLineTag::NamePrefix => GedcomLineTag::NamePrefix,
            GedcomLineTag::NameSuffix => GedcomLineTag::NameSuffix,
            GedcomLineTag::Object => GedcomLineTag::Object,
            GedcomLineTag::Occupation => GedcomLineTag::Occupation,
            GedcomLineTag::Ordinance => GedcomLineTag::Ordinance,
            GedcomLineTag::Ordination => GedcomLineTag::Ordination,
            GedcomLineTag::Page => GedcomLineTag::Page,
            GedcomLineTag::Pedigree => GedcomLineTag::Pedigree,
            GedcomLineTag::Phone => GedcomLineTag::Phone,
            GedcomLineTag::Place => GedcomLineTag::Place,
            GedcomLineTag::PostalCode => GedcomLineTag::PostalCode,
            GedcomLineTag::Probate => GedcomLineTag::Probate,
            GedcomLineTag::Property => GedcomLineTag::Property,
            GedcomLineTag::Publication => GedcomLineTag::Publication,
            GedcomLineTag::QualityOfData => GedcomLineTag::QualityOfData,
            GedcomLineTag::Reference => GedcomLineTag::Reference,
            GedcomLineTag::Relationship => GedcomLineTag::Relationship,
            GedcomLineTag::Religion => GedcomLineTag::Religion,
            GedcomLineTag::Repository => GedcomLineTag::Repository,
            GedcomLineTag::Residence => GedcomLineTag::Residence,
            GedcomLineTag::Restriction => GedcomLineTag::Restriction,
            GedcomLineTag::Retirement => GedcomLineTag::Retirement,
            GedcomLineTag::RecordFileNumber => GedcomLineTag::RecordFileNumber,
            GedcomLineTag::RecordIdNumber => GedcomLineTag::RecordIdNumber,
            GedcomLineTag::Role => GedcomLineTag::Role,
            GedcomLineTag::Romanised => GedcomLineTag::Romanised,
            GedcomLineTag::Sex => GedcomLineTag::Sex,
            GedcomLineTag::SealingChild => GedcomLineTag::SealingChild,
            GedcomLineTag::SealingSpouse => GedcomLineTag::SealingSpouse,
            GedcomLineTag::Source => GedcomLineTag::Source,
            GedcomLineTag::SurnamePrefix => GedcomLineTag::SurnamePrefix,
            GedcomLineTag::SocialSecurityNumber => GedcomLineTag::SocialSecurityNumber,
            GedcomLineTag::State => GedcomLineTag::State,
            GedcomLineTag::Status => GedcomLineTag::Status,
            GedcomLineTag::Submitter => GedcomLineTag::Submitter,
            GedcomLineTag::Submission => GedcomLineTag::Submission,
            GedcomLineTag::Surname => GedcomLineTag::Surname,
            GedcomLineTag::Temple => GedcomLineTag::Temple,
            GedcomLineTag::Text => GedcomLineTag::Text,
            GedcomLineTag::Time => GedcomLineTag::Time,
            GedcomLineTag::Title => GedcomLineTag::Title,
            GedcomLineTag::Trailer => GedcomLineTag::Trailer,
            GedcomLineTag::Type => GedcomLineTag::Type,
            GedcomLineTag::Version => GedcomLineTag::Version,
            GedcomLineTag::Wife => GedcomLineTag::Wife,
            GedcomLineTag::Will => GedcomLineTag::Will,
            GedcomLineTag::Web => GedcomLineTag::Web,
        }
    }
}

/// The tag of the vocabulary that an upper-case mnemonic stands for.
pub open spec fn known_tag(code: Seq<char>) -> Option<GedcomLineTag> {
    if code == "ABBR"@ {
        Some(GedcomLineTag::Abbreviation)
    } else if code == "ADDR"@ {
        Some(GedcomLineTag::Address)
    } else if code == "ADR1"@ {
        Some(GedcomLineTag::Address1)
    } else if code == "ADR2"@ {
        Some(GedcomLineTag::Address2)
    } else if code == "ADOP"@ {
        Some(GedcomLineTag::Adoption)
    } else if code == "AFN"@ {
        Some(GedcomLineTag::AncestralFileNumber)
    } else if code == "AGE"@ {
        Some(GedcomLineTag::Age)
    } else if code == "AGNC"@ {
        Some(GedcomLineTag::Agency)
    } else if code == "ALIA"@ {
        Some(GedcomLineTag::Alias)
    } else if code == "ANCE"@ {
        Some(GedcomLineTag::Ancestors)
    } else if code == "ANCI"@ {
        Some(GedcomLineTag::AncestorInterest)
    } else if code == "ANUL"@ {
        Some(GedcomLineTag::Annulment)
    } else if code == "ASSO"@ {
        Some(GedcomLineTag::Associates)
    } else if code == "AUTH"@ {
        Some(GedcomLineTag::Author)
    } else if code == "BAPL"@ {
        Some(GedcomLineTag::BaptismLds)
    } else if code == "BAPM"@ {
        Some(GedcomLineTag::Baptism)
    } else if code == "BARM"@ {
        Some(GedcomLineTag::BarMitzvah)
    } else if code == "BASM"@ {
        Some(GedcomLineTag::BasMitzvah)
    } else if code == "BIRT"@ {
        Some(GedcomLineTag::Birth)
    } else if code == "BLES"@ {
        Some(GedcomLineTag::Blessing)
    } else if code == "BURI"@ {
        Some(GedcomLineTag::Burial)
    } else if code == "CALN"@ {
        Some(GedcomLineTag::CallNumber)
    } else if code == "CAST"@ {
        Some(GedcomLineTag::Caste)
    } else if code == "CAUS"@ {
        Some(GedcomLineTag::Cause)
    } else if code == "CENS"@ {
        Some(GedcomLineTag::Census)
    } else if code == "CHAN"@ {
        Some(GedcomLineTag::Change)
    } else if code == "CHAR"@ {
        Some(GedcomLineTag::Character)
    } else if code == "CHIL"@ {
        Some(GedcomLineTag::Child)
    } else if code == "CHR"@ {
        Some(GedcomLineTag::Christening)
    } else if code == "CHRA"@ {
        Some(GedcomLineTag::AdultChristening)
    } else if code == "CITY"@ {
        Some(GedcomLineTag::City)
    } else if code == "CONC"@ {
        Some(GedcomLineTag::Concatenation)
    } else if code == "CONF"@ {
        Some(GedcomLineTag::Confirmation)
    } else if code == "CONL"@ {
        Some(GedcomLineTag::ConfirmationLds)
    } else if code == "CONT"@ {
        Some(GedcomLineTag::Continued)
    } else if code == "COPR"@ {
        Some(GedcomLineTag::Copyright)
    } else if code == "CORP"@ {
        Some(GedcomLineTag::Corporate)
    } else if code == "CREM"@ {
        Some(GedcomLineTag::Cremation)
    } else if code == "CTRY"@ {
        Some(GedcomLineTag::Country)
    } else if code == "DATA"@ {
        Some(GedcomLineTag::Data)
    } else if code == "DATE"@ {
        Some(GedcomLineTag::Date)
    } else if code == "DEAT"@ {
        Some(GedcomLineTag::Death)
    } else if code == "DESC"@ {
        Some(GedcomLineTag::Descendants)
    } else if code == "DESI"@ {
        Some(GedcomLineTag::DescendantInterest)
    } else if code == "DEST"@ {
        Some(GedcomLineTag::Destination)
    } else if code == "DIV"@ {
        Some(GedcomLineTag::Divorce)
    } else if code == "DIVF"@ {
        Some(GedcomLineTag::DivorceFiled)
    } else if code == "DSCR"@ {
        Some(GedcomLineTag::PhysicalDescription)
    } else if code == "EDUC"@ {
        Some(GedcomLineTag::Education)
    } else if code == "EMAI"@ {
        Some(GedcomLineTag::Email)
    } else if code == "EMIG"@ {
        Some(GedcomLineTag::Emigration)
    } else if code == "ENDL"@ {
        Some(GedcomLineTag::Endowment)
    } else if code == "ENGA"@ {
        Some(GedcomLineTag::Engagement)
    } else if code == "EVEN"@ {
        Some(GedcomLineTag::Event)
    } else if code == "FACT"@ {
        Some(GedcomLineTag::Fact)
    } else if code == "FAM"@ {
        Some(GedcomLineTag::Family)
    } else if code == "FAMC"@ {
        Some(GedcomLineTag::FamilyChild)
    } else if code == "FAMF"@ {
        Some(GedcomLineTag::FamilyFile)
    } else if code == "FAMS"@ {
        Some(GedcomLineTag::FamilySpouse)
    } else if code == "FAX"@ {
        Some(GedcomLineTag::Facsimile)
    } else if code == "FCOM"@ {
        Some(GedcomLineTag::FirstCommunion)
    } else if code == "FILE"@ {
        Some(GedcomLineTag::File)
    } else if code == "FORM"@ {
        Some(GedcomLineTag::Format)
    } else if code == "FONE"@ {
        Some(GedcomLineTag::Phonetic)
    } else if code == "GEDC"@ {
        Some(GedcomLineTag::Gedcom)
    } else if code == "GIVN"@ {
        Some(GedcomLineTag::GivenName)
    } else if code == "GRAD"@ {
        Some(GedcomLineTag::Graduation)
    } else if code == "HEAD"@ {
        Some(GedcomLineTag::Header)
    } else if code == "HUSB"@ {
        Some(GedcomLineTag::Husband)
    } else if code == "IDNO"@ {
        Some(GedcomLineTag::IdentityNumber)
    } else if code == "IMMI"@ {
        Some(GedcomLineTag::Immigration)
    } else if code == "INDI"@ {
        Some(GedcomLineTag::Individual)
    } else if code == "LANG"@ {
        Some(GedcomLineTag::Language)
    } else if code == "LATI"@ {
        Some(GedcomLineTag::Latitude)
    } else if code == "LONG"@ {
        Some(GedcomLineTag::Longitude)
    } else if code == "MAP"@ {
        Some(GedcomLineTag::PlaceMap)
    } else if code == "MARB"@ {
        Some(GedcomLineTag::MarriageBanns)
    } else if code == "MARC"@ {
        Some(GedcomLineTag::MarriageContract)
    } else if code == "MARL"@ {
        Some(GedcomLineTag::MarriageLicense)
    } else if code == "MARR"@ {
        Some(GedcomLineTag::Marriage)
    } else if code == "MARS"@ {
        Some(GedcomLineTag::MarriageSettlement)
    } else if code == "MEDI"@ {
        Some(GedcomLineTag::Media)
    } else if code == "NAME"@ {
        Some(GedcomLineTag::Name)
    } else if code == "NATI"@ {
        Some(GedcomLineTag::Nationality)
    } else if code == "NATU"@ {
        Some(GedcomLineTag::Naturalisation)
    } else if code == "NCHI"@ {
        Some(GedcomLineTag::ChildrenCount)
    } else if code == "NICK"@ {
        Some(GedcomLineTag::Nickname)
    } else if code == "NMR"@ {
        Some(GedcomLineTag::MarriageCount)
    } else if code == "NOTE"@ {
        Some(GedcomLineTag::Note)
    } else if code == "NPFX"@ {
        Some(GedcomLineTag::NamePrefix)
    } else if code == "NSFX"@ {
        Some(GedcomLineTag::NameSuffix)
    } else if code == "OBJE"@ {
        Some(GedcomLineTag::Object)
    } else if code == "OCCU"@ {
        Some(GedcomLineTag::Occupation)
    } else if code == "ORDI"@ {
        Some(GedcomLineTag::Ordinance)
    } else if code == "ORDN"@ {
        Some(GedcomLineTag::Ordination)
    } else if code == "PAGE"@ {
        Some(GedcomLineTag::Page)
    } else if code == "PEDI"@ {
        Some(GedcomLineTag::Pedigree)
    } else if code == "PHON"@ {
        Some(GedcomLineTag::Phone)
    } else if code == "PLAC"@ {
        Some(GedcomLineTag::Place)
    } else if code == "POST"@ {
        Some(GedcomLineTag::PostalCode)
    } else if code == "PROB"@ {
        Some(GedcomLineTag::Probate)
    } else if code == "PROP"@ {
        Some(GedcomLineTag::Property)
    } else if code == "PUBL"@ {
        Some(GedcomLineTag::Publication)
    } else if code == "QUAY"@ {
        Some(GedcomLineTag::QualityOfData)
    } else if code == "REFN"@ {
        Some(GedcomLineTag::Reference)
    } else if code == "RELA"@ {
        Some(GedcomLineTag::Relationship)
    } else if code == "RELI"@ {
        Some(GedcomLineTag::Religion)
    } else if code == "REPO"@ {
        Some(GedcomLineTag::Repository)
    } else if code == "RESI"@ {
        Some(GedcomLineTag::Residence)
    } else if code == "RESN"@ {
        Some(GedcomLineTag::Restriction)
    } else if code == "RETI"@ {
        Some(GedcomLineTag::Retirement)
    } else if code == "RFN"@ {
        Some(GedcomLineTag::RecordFileNumber)
    } else if code == "RIN"@ {
        Some(GedcomLineTag::RecordIdNumber)
    } else if code == "ROLE"@ {
        Some(GedcomLineTag::Role)
    } else if code == "ROMN"@ {
        Some(GedcomLineTag::Romanised)
    } else if code == "SEX"@ {
        Some(GedcomLineTag::Sex)
    } else if code == "SLGC"@ {
        Some(GedcomLineTag::SealingChild)
    } else if code == "SLGS"@ {
        Some(GedcomLineTag::SealingSpouse)
    } else if code == "SOUR"@ {
        Some(GedcomLineTag::Source)
    } else if code == "SPFX"@ {
        Some(GedcomLineTag::SurnamePrefix)
    } else if code == "SSN"@ {
        Some(GedcomLineTag::SocialSecurityNumber)
    } else if code == "STAE"@ {
        Some(GedcomLineTag::State)
    } else if code == "STAT"@ {
        Some(GedcomLineTag::Status)
    } else if code == "SUBM"@ {
        Some(GedcomLineTag::Submitter)
    } else if code == "SUBN"@ {
        Some(GedcomLineTag::Submission)
    } else if code == "SURN"@ {
        Some(GedcomLineTag::Surname)
    } else if code == "TEMP"@ {
        Some(GedcomLineTag::Temple)
    } else if code == "TEXT"@ {
        Some(GedcomLineTag::Text)
    } else if code == "TIME"@ {
        Some(GedcomLineTag::Time)
    } else if code == "TITL"@ {
        Some(GedcomLineTag::Title)
    } else if code == "TRLR"@ {
        Some(GedcomLineTag::Trailer)
    } else if code == "TYPE"@ {
        Some(GedcomLineTag::Type)
    } else if code == "VERS"@ {
        Some(GedcomLineTag::Version)
    } else if code == "WIFE"@ {
        Some(GedcomLineTag::Wife)
    } else if code == "WILL"@ {
        Some(GedcomLineTag::Will)
    } else if code == "WWW"@ {
        Some(GedcomLineTag::Web)
    } else {
        None
    }
}

/// A letter, digit or underscore of ASCII.
pub open spec fn is_word_char(c: char) -> bool {
    'A' <= c <= 'Z' || 'a' <= c <= 'z' || '0' <= c <= '9' || c == '_'
}

/// The shape of a custom tag: an underscore, then one or more letters, digits and
/// underscores of ASCII, and nothing else.
pub open spec fn is_custom_tag(text: Seq<char>) -> bool {
    &&& text.len() >= 2
    &&& text[0] == '_'
    &&& forall|i: int| 1 <= i < text.len() ==> is_word_char(#[trigger] text[i])
}

/// The tag that a text stands for, if any. A mnemonic of the vocabulary is recognised in
/// any mix of upper and lower case; a custom tag keeps its text as it is.
pub open spec fn classify(text: Seq<char>) -> Option<TagView> {
    match known_tag(ascii_uppercase(text)) {
        Some(tag) => Some(TagView::Known(tag)),
        None => if is_custom_tag(text) {
            Some(TagView::Custom(text))
        } else {
            None
        },
    }
}

/// `regex::Regex::new` and `regex::Regex::is_match`, for the one pattern
/// [`CUSTOM_TAG_PATTERN`]. The pattern is anchored at both ends of the text, and between
/// them asks for an underscore and then one or more characters of the class
/// `[A-Za-z0-9_]`, so the text matches where it has the shape of [`is_custom_tag`].
#[verifier::external_body]
fn matches_pattern(pattern: &str, text: &str) -> (found: bool)
    requires
        pattern@ == CUSTOM_TAG_PATTERN@,
    ensures
        found == is_custom_tag(text@),
{
    match regex::Regex::new(pattern) {
        Ok(compiled) => compiled.is_match(text),
        Err(_) => false,
    }
}

/// The tag of the vocabulary with the given upper-case mnemonic.
fn lookup(code: &str) -> (tag: Option<GedcomLineTag>)
    ensures
        tag == known_tag(code@),
{
    if same_text(code, "ABBR") {
        Some(GedcomLineTag::Abbreviation)
    } else if same_text(code, "ADDR") {
        Some(GedcomLineTag::Address)
    } else if same_text(code, "ADR1") {
        Some(GedcomLineTag::Address1)
    } else if same_text(code, "ADR2") {
        Some(GedcomLineTag::Address2)
    } else if same_text(code, "ADOP") {
        Some(GedcomLineTag::Adoption)
    } else if same_text(code, "AFN") {
        Some(GedcomLineTag::AncestralFileNumber)
    } else if same_text(code, "AGE") {
        Some(GedcomLineTag::Age)
    } else if same_text(code, "AGNC") {
        Some(GedcomLineTag::Agency)
    } else if same_text(code, "ALIA") {
        Some(GedcomLineTag::Alias)
    } else if same_text(code, "ANCE") {
        Some(GedcomLineTag::Ancestors)
    } else if same_text(code, "ANCI") {
        Some(GedcomLineTag::AncestorInterest)
    } else if same_text(code, "ANUL") {
        Some(GedcomLineTag::Annulment)
    } else if same_text(code, "ASSO") {
        Some(GedcomLineTag::Associates)
    } else if same_text(code, "AUTH") {
        Some(GedcomLineTag::Author)
    } else if same_text(code, "BAPL") {
        Some(GedcomLineTag::BaptismLds)
    } else if same_text(code, "BAPM") {
        Some(GedcomLineTag::Baptism)
    } else if same_text(code, "BARM") {
        Some(GedcomLineTag::BarMitzvah)
    } else if same_text(code, "BASM") {
        Some(GedcomLineTag::BasMitzvah)
    } else if same_text(code, "BIRT") {
        Some(GedcomLineTag::Birth)
    } else if same_text(code, "BLES") {
        Some(GedcomLineTag::Blessing)
    } else if same_text(code, "BURI") {
        Some(GedcomLineTag::Burial)
    } else if same_text(code, "CALN") {
        Some(GedcomLineTag::CallNumber)
    } else if same_text(code, "CAST") {
        Some(GedcomLineTag::Caste)
    } else if same_text(code, "CAUS") {
        Some(GedcomLineTag::Cause)
    } else if same_text(code, "CENS") {
        Some(GedcomLineTag::Census)
    } else if same_text(code, "CHAN") {
        Some(GedcomLineTag::Change)
    } else if same_text(code, "CHAR") {
        Some(GedcomLineTag::Character)
    } else if same_text(code, "CHIL") {
        Some(GedcomLineTag::Child)
    } else if same_text(code, "CHR") {
        Some(GedcomLineTag::Christening)
    } else if same_text(code, "CHRA") {
        Some(GedcomLineTag::AdultChristening)
    } else if same_text(code, "CITY") {
        Some(GedcomLineTag::City)
    } else if same_text(code, "CONC") {
        Some(GedcomLineTag::Concatenation)
    } else if same_text(code, "CONF") {
        Some(GedcomLineTag::Confirmation)
    } else if same_text(code, "CONL") {
        Some(GedcomLineTag::ConfirmationLds)
    } else if same_text(code, "CONT") {
        Some(GedcomLineTag::Continued)
    } else if same_text(code, "COPR") {
        Some(GedcomLineTag::Copyright)
    } else if same_text(code, "CORP") {
        Some(GedcomLineTag::Corporate)
    } else if same_text(code, "CREM") {
        Some(GedcomLineTag::Cremation)
    } else if same_text(code, "CTRY") {
        Some(GedcomLineTag::Country)
    } else if same_text(code, "DATA") {
        Some(GedcomLineTag::Data)
    } else if same_text(code, "DATE") {
        Some(GedcomLineTag::Date)
    } else if same_text(code, "DEAT") {
        Some(GedcomLineTag::Death)
    } else if same_text(code, "DESC") {
        Some(GedcomLineTag::Descendants)
    } else if same_text(code, "DESI") {
        Some(GedcomLineTag::DescendantInterest)
    } else if same_text(code, "DEST") {
        Some(GedcomLineTag::Destination)
    } else if same_text(code, "DIV") {
        Some(GedcomLineTag::Divorce)
    } else if same_text(code, "DIVF") {
        Some(GedcomLineTag::DivorceFiled)
    } else if same_text(code, "DSCR") {
        Some(GedcomLineTag::PhysicalDescription)
    } else if same_text(code, "EDUC") {
        Some(GedcomLineTag::Education)
    } else if same_text(code, "EMAI") {
        Some(GedcomLineTag::Email)
    } else if same_text(code, "EMIG") {
        Some(GedcomLineTag::Emigration)
    } else if same_text(code, "ENDL") {
        Some(GedcomLineTag::Endowment)
    } else if same_text(code, "ENGA") {
        Some(GedcomLineTag::Engagement)
    } else if same_text(code, "EVEN") {
        Some(GedcomLineTag::Event)
    } else if same_text(code, "FACT") {
        Some(GedcomLineTag::Fact)
    } else if same_text(code, "FAM") {
        Some(GedcomLineTag::Family)
    } else if same_text(code, "FAMC") {
        Some(GedcomLineTag::FamilyChild)
    } else if same_text(code, "FAMF") {
        Some(GedcomLineTag::FamilyFile)
    } else if same_text(code, "FAMS") {
        Some(GedcomLineTag::FamilySpouse)
    } else if same_text(code, "FAX") {
        Some(GedcomLineTag::Facsimile)
    } else if same_text(code, "FCOM") {
        Some(GedcomLineTag::FirstCommunion)
    } else if same_text(code, "FILE") {
        Some(GedcomLineTag::File)
    } else if same_text(code, "FORM") {
        Some(GedcomLineTag::Format)
    } else if same_text(code, "FONE") {
        Some(GedcomLineTag::Phonetic)
    } else if same_text(code, "GEDC") {
        Some(GedcomLineTag::Gedcom)
    } else if same_text(code, "GIVN") {
        Some(GedcomLineTag::GivenName)
    } else if same_text(code, "GRAD") {
        Some(GedcomLineTag::Graduation)
    } else if same_text(code, "HEAD") {
        Some(GedcomLineTag::Header)
    } else if same_text(code, "HUSB") {
        Some(GedcomLineTag::Husband)
    } else if same_text(code, "IDNO") {
        Some(GedcomLineTag::IdentityNumber)
    } else if same_text(code, "IMMI") {
        Some(GedcomLineTag::Immigration)
    } else if same_text(code, "INDI") {
        Some(GedcomLineTag::Individual)
    } else if same_text(code, "LANG") {
        Some(GedcomLineTag::Language)
    } else if same_text(code, "LATI") {
        Some(GedcomLineTag::Latitude)
    } else if same_text(code, "LONG") {
        Some(GedcomLineTag::Longitude)
    } else if same_text(code, "MAP") {
        Some(GedcomLineTag::PlaceMap)
    } else if same_text(code, "MARB") {
        Some(GedcomLineTag::MarriageBanns)
    } else if same_text(code, "MARC") {
        Some(GedcomLineTag::MarriageContract)
    } else if same_text(code, "MARL") {
        Some(GedcomLineTag::MarriageLicense)
    } else if same_text(code, "MARR") {
        Some(GedcomLineTag::Marriage)
    } else if same_text(code, "MARS") {
        Some(GedcomLineTag::MarriageSettlement)
    } else if same_text(code, "MEDI") {
        Some(GedcomLineTag::Media)
    } else if same_text(code, "NAME") {
        Some(GedcomLineTag::Name)
    } else if same_text(code, "NATI") {
        Some(GedcomLineTag::Nationality)
    } else if same_text(code, "NATU") {
        Some(GedcomLineTag::Naturalisation)
    } else if same_text(code, "NCHI") {
        Some(GedcomLineTag::ChildrenCount)
    } else if same_text(code, "NICK") {
        Some(GedcomLineTag::Nickname)
    } else if same_text(code, "NMR") {
        Some(GedcomLineTag::MarriageCount)
    } else if same_text(code, "NOTE") {
        Some(GedcomLineTag::Note)
    } else if same_text(code, "NPFX") {
        Some(GedcomLineTag::NamePrefix)
    } else if same_text(code, "NSFX") {
        Some(GedcomLineTag::NameSuffix)
    } else if same_text(code, "OBJE") {
        Some(GedcomLineTag::Object)
    } else if same_text(code, "OCCU") {
        Some(GedcomLineTag::Occupation)
    } else if same_text(code, "ORDI") {
        Some(GedcomLineTag::Ordinance)
    } else if same_text(code, "ORDN") {
        Some(GedcomLineTag::Ordination)
    } else if same_text(code, "PAGE") {
        Some(GedcomLineTag::Page)
    } else if same_text(code, "PEDI") {
        Some(GedcomLineTag::Pedigree)
    } else if same_text(code, "PHON") {
        Some(GedcomLineTag::Phone)
    } else if same_text(code, "PLAC") {
        Some(GedcomLineTag::Place)
    } else if same_text(code, "POST") {
        Some(GedcomLineTag::PostalCode)
    } else if same_text(code, "PROB") {
        Some(GedcomLineTag::Probate)
    } else if same_text(code, "PROP") {
        Some(GedcomLineTag::Property)
    } else if same_text(code, "PUBL") {
        Some(GedcomLineTag::Publication)
    } else if same_text(code, "QUAY") {
        Some(GedcomLineTag::QualityOfData)
    } else if same_text(code, "REFN") {
        Some(GedcomLineTag::Reference)
    } else if same_text(code, "RELA") {
        Some(GedcomLineTag::Relationship)
    } else if same_text(code, "RELI") {
        Some(GedcomLineTag::Religion)
    } else if same_text(code, "REPO") {
        Some(GedcomLineTag::Repository)
    } else if same_text(code, "RESI") {
        Some(GedcomLineTag::Residence)
    } else if same_text(code, "RESN") {
        Some(GedcomLineTag::Restriction)
    } else if same_text(code, "RETI") {
        Some(GedcomLineTag::Retirement)
    } else if same_text(code, "RFN") {
        Some(GedcomLineTag::RecordFileNumber)
    } else if same_text(code, "RIN") {
        Some(GedcomLineTag::RecordIdNumber)
    } else if same_text(code, "ROLE") {
        Some(GedcomLineTag::Role)
    } else if same_text(code, "ROMN") {
        Some(GedcomLineTag::Romanised)
    } else if same_text(code, "SEX") {
        Some(GedcomLineTag::Sex)
    } else if same_text(code, "SLGC") {
        Some(GedcomLineTag::SealingChild)
    } else if same_text(code, "SLGS") {
        Some(GedcomLineTag::SealingSpouse)
    } else if same_text(code, "SOUR") {
        Some(GedcomLineTag::Source)
    } else if same_text(code, "SPFX") {
        Some(GedcomLineTag::SurnamePrefix)
    } else if same_text(code, "SSN") {
        Some(GedcomLineTag::SocialSecurityNumber)
    } else if same_text(code, "STAE") {
        Some(GedcomLineTag::State)
    } else if same_text(code, "STAT") {
        Some(GedcomLineTag::Status)
    } else if same_text(code, "SUBM") {
        Some(GedcomLineTag::Submitter)
    } else if same_text(code, "SUBN") {
        Some(GedcomLineTag::Submission)
    } else if same_text(code, "SURN") {
        Some(GedcomLineTag::Surname)
    } else if same_text(code, "TEMP") {
        Some(GedcomLineTag::Temple)
    } else if same_text(code, "TEXT") {
        Some(GedcomLineTag::Text)
    } else if same_text(code, "TIME") {
        Some(GedcomLineTag::Time)
    } else if same_text(code, "TITL") {
        Some(GedcomLineTag::Title)
    } else if same_text(code, "TRLR") {
        Some(GedcomLineTag::Trailer)
    } else if same_text(code, "TYPE") {
        Some(GedcomLineTag::Type)
    } else if same_text(code, "VERS") {
        Some(GedcomLineTag::Version)
    } else if same_text(code, "WIFE") {
        Some(GedcomLineTag::Wife)
    } else if same_text(code, "WILL") {
        Some(GedcomLineTag::Will)
    } else if same_text(code, "WWW") {
        Some(GedcomLineTag::Web)
    } else {
        None
    }
}

impl std::str::FromStr for GedcomLineTag {
    type Err = &'static str;

    /// Classifies a text: `Ok` with the tag where [`classify`] knows one, and the error
    /// [`INVALID_TAG`] for every other text.
    fn from_str(value: &str) -> (r: Result<Self, Self::Err>)
        ensures
            match r {
                Ok(tag) => classify(value@) == Some(tag@),
                Err(message) => classify(value@) is None && message@ == INVALID_TAG@,
            },
    {
        let code = to_ascii_uppercase(value);
        match lookup(code.as_str()) {
            Some(tag) => {
                proof {
                    lemma_known_tag_is_not_custom(code@);
                }
                Ok(tag)
            },
            None => {
                if matches_pattern(CUSTOM_TAG_PATTERN, value) {
                    Ok(GedcomLineTag::Custom(value.to_owned()))
                } else {
                    Err(INVALID_TAG)
                }
            },
        }
    }
}

/// Whether a text is the text of another but for the case of its ASCII letters.
pub open spec fn same_but_for_case(first: Seq<char>, second: Seq<char>) -> bool {
    ascii_uppercase(first) == ascii_uppercase(second)
}

/// The vocabulary does not tell upper case from lower case: two texts that differ in the
/// case of their letters only stand for the same tag of the vocabulary, or both for
/// none. A custom tag is the text that was classified, as it was written.
pub proof fn lemma_classify_ignores_case(first: Seq<char>, second: Seq<char>)
    requires
        same_but_for_case(first, second),
    ensures
        forall|tag: GedcomLineTag|
            classify(first) == Some(TagView::Known(tag)) <==> classify(second) == Some(
                TagView::Known(tag),
            ),
        forall|text: Seq<char>| classify(first) == Some(TagView::Custom(text)) ==> text == first,
{
}

/// The vocabulary holds no custom tag, so a tag it returns is its own view.
pub proof fn lemma_known_tag_is_not_custom(code: Seq<char>)
    ensures
        known_tag(code) matches Some(tag) ==> tag@ == TagView::Known(tag),
{
}

/// One parsed line of a document.
#[derive(Debug, PartialEq, Eq)]
pub struct GedcomLine {
    pub level: u8,
    pub line_value: Option<String>,
    pub tag: GedcomLineTag,
    pub xref_id: Option<String>,
}

/// A line as contracts see it, with each text as its sequence of characters.
pub struct LineView {
    pub level: u8,
    pub line_value: Option<Seq<char>>,
    pub tag: TagView,
    pub xref_id: Option<Seq<char>>,
}

impl View for GedcomLine {
    type V = LineView;

    open spec fn view(&self) -> LineView {
        LineView {
            level: self.level,
            line_value: optional_text(self.line_value),
            tag: self.tag@,
            xref_id: optional_text(self.xref_id),
        }
    }
}

impl GedcomLine {
    /// A builder with nothing set.
    pub fn builder() -> (builder: GedcomLineBuilder)
        ensures
            builder == GedcomLineBuilder::empty(),
    {
        GedcomLineBuilder::new()
    }

    pub fn level(&self) -> (level: u8)
        ensures
            level == self.level,
    {
        self.level
    }

    pub fn line_value(&self) -> (value: &Option<String>)
        ensures
            *value == self.line_value,
    {
        &self.line_value
    }

    pub fn tag(&self) -> (tag: &GedcomLineTag)
        ensures
            *tag == self.tag,
    {
        &self.tag
    }

    pub fn xref_id(&self) -> (label: &Option<String>)
        ensures
            *label == self.xref_id,
    {
        &self.xref_id
    }
}

/// Collects the parts of a line; `build` asks for a level and a tag.
pub struct GedcomLineBuilder {
    pub level: Option<u8>,
    pub optional_line_value: Option<String>,
    pub tag: Option<GedcomLineTag>,
    pub optional_xref_id: Option<String>,
}

impl Default for GedcomLineBuilder {
    fn default() -> (builder: Self)
        ensures
            builder == Self::empty(),
    {
        GedcomLineBuilder {
            level: None,
            optional_line_value: None,
            tag: None,
            optional_xref_id: None,
        }
    }
}

impl GedcomLineBuilder {
    /// The builder with nothing set.
    pub open spec fn empty() -> GedcomLineBuilder {
        GedcomLineBuilder {
            level: None,
            optional_line_value: None,
            tag: None,
            optional_xref_id: None,
        }
    }

    fn new() -> (builder: Self)
        ensures
            builder == Self::empty(),
    {
        Self::default()
    }

    /// Makes the line and empties the builder. Without a level nothing is taken; without a
    /// tag only the level is.
    pub fn build(&mut self) -> (r: Result<GedcomLine, &'static str>)
        ensures
            old(self).level is None ==> r is Err && r->Err_0@ == MISSING_LEVEL@ && *final(self)
                == *old(self),
            old(self).level is Some && old(self).tag is None ==> r is Err && r->Err_0@
                == MISSING_TAG@ && *final(self) == (GedcomLineBuilder {
                level: None,
                ..*old(self)
            }),
            old(self).level is Some && old(self).tag is Some ==> *final(self) == Self::empty()
                && r == Ok::<GedcomLine, &'static str>(
                GedcomLine {
                    level: old(self).level->0,
                    line_value: old(self).optional_line_value,
                    tag: old(self).tag->0,
                    xref_id: old(self).optional_xref_id,
                },
            ),
    {
        let level = match self.level.take() {
            Some(level) => level,
            None => {
                return Err(MISSING_LEVEL);
            },
        };
        let tag = match self.tag.take() {
            Some(tag) => tag,
            None => {
                return Err(MISSING_TAG);
            },
        };
        Ok(
            GedcomLine {
                level,
                tag,
                line_value: self.optional_line_value.take(),
                xref_id: self.optional_xref_id.take(),
            },
        )
    }

    pub fn with_level(&mut self, level: u8) -> (builder: &mut Self)
        ensures
            *builder == (GedcomLineBuilder { level: Some(level), ..*old(self) }),
            *final(self) == *final(builder),
    {
        self.level = Some(level);
        self
    }

    pub fn with_optional_line_value(&mut self, optional_line_value: Option<String>) -> (builder:
        &mut Self)
        ensures
            *builder == (GedcomLineBuilder { optional_line_value, ..*old(self) }),
            *final(self) == *final(builder),
    {
        self.optional_line_value = optional_line_value;
        self
    }

    pub fn with_tag(&mut self, tag: GedcomLineTag) -> (builder: &mut Self)
        ensures
            *builder == (GedcomLineBuilder { tag: Some(tag), ..*old(self) }),
            *final(self) == *final(builder),
    {
        self.tag = Some(tag);
        self
    }

    pub fn with_optional_xref_id(&mut self, optional_xref_id: Option<String>) -> (builder:
        &mut Self)
        ensures
            *builder == (GedcomLineBuilder { optional_xref_id, ..*old(self) }),
            *final(self) == *final(builder),
    {
        self.optional_xref_id = optional_xref_id;
        self
    }
}

} // verus!
