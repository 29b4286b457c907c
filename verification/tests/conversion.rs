use gedcom::gedcom_to_relation;
use gedcom::models::date::{Date, DateTime};
use gedcom::models::relation::{Birth, Child, Family, FactTypeId, Gender, Name, Person, Place};
use gedcom::parser::{ParseError, ParseErrorKind};

const HEADER: &str = "0 HEAD
1 SOUR FINDMYPAST
2 NAME Findmypast Family Tree
2 VERS 2.0
2 CORP DC Thomson Family History
3 ADDR The Glebe, 6 Chapel Place, Rivington Street
4 CITY London
4 POST EC2A 3DQ
4 CTRY England
3 WWW www.findmypast.com
1 DATE 15 APR 2020
2 TIME 15:21:24
1 FILE Henderson Family Tree.ged
1 SUBM @SUBM1@
1 DEST FINDMYPAST
1 GEDC
2 VERS 5.5.1
2 FORM LINEAGE-LINKED
1 CHAR UTF-8
1 LANG English
1 _ROOT @I1@
0 @SUBM1@ SUBM
1 NAME Not known
";

fn at(hour: u32, minute: u32, second: u32) -> DateTime {
    DateTime { date: Date { year: 2020, month: 4, day: 15 }, hour, minute, second, nanosecond: 0 }
}

fn name(given: &str, surname: &str) -> Name {
    Name {
        fact_type_id: FactTypeId::Name,
        given_names: Some(String::from(given)),
        surnames: Some(String::from(surname)),
    }
}

fn person(
    id: u32,
    gender: Gender,
    date_created: DateTime,
    names: Vec<Name>,
    facts: Option<Vec<Birth>>,
) -> Person {
    Person { date_created, facts, gender, id, is_living: Some(true), names }
}

#[test]
fn single_person_is_mapped() {
    let input = format!(
        "{}{}",
        HEADER,
        "0 @I1@ INDI
1 NAME Gavin /Henderson/
2 GIVN Gavin
2 SURN Henderson
2 _PRIM Y
1 SEX M
1 BIRT
2 _PRIM Y
2 DATE 1 Jan 1990
2 PLAC Dundee
1 _UID 9ACF01CA-A40C-4AF5-8905-D6678B6288BE
1 CHAN
2 DATE 15 APR 2020
3 TIME 16:19:21
0 TRLR
"
    );
    let mapped = gedcom_to_relation(&input).unwrap();
    let birth = Birth {
        date_detail: Some(Date { year: 1990, month: 1, day: 1 }),
        fact_type_id: FactTypeId::Birth,
        place: Some(Place { place_name: String::from("Dundee") }),
        preferred: true,
    };
    let expected = person(
        1,
        Gender::Male,
        at(16, 19, 21),
        vec![name("Gavin", "Henderson")],
        Some(vec![birth]),
    );
    assert_eq!(mapped.persons, vec![expected]);
    assert_eq!(mapped.persons[0].gender.code(), 1);
    assert_eq!(mapped.persons[0].is_living, Some(true));
    assert!(mapped.familys.is_empty());
    assert!(mapped.childs.is_empty());
    assert!(mapped.fact_types.is_empty());
    assert!(mapped.master_sources.is_empty());
    assert!(mapped.medias.is_empty());
    assert!(mapped.source_repos.is_empty());
}

const THREE_PERSONS: &str = "0 @I1@ INDI
1 NAME Gavin /Henderson/
2 GIVN Gavin
2 SURN Henderson
2 _PRIM Y
1 SEX M
1 BIRT
2 _PRIM Y
2 DATE 1 Jan 1990
1 FAMC @F1@
1 _UID 51F43EFB-1533-430B-968F-D8FAFEC27D46
1 CHAN
2 DATE 15 APR 2020
3 TIME 16:38:50
0 @I2@ INDI
1 NAME Jane /Reed/
2 GIVN Jane
2 SURN Reed
2 _PRIM Y
1 SEX F
1 BIRT
2 _PRIM Y
2 PLAC Dundee
1 FAMS @F1@
1 _UID 15D52256-05FD-48F9-A5B5-D1571D570DCE
1 CHAN
2 DATE 15 APR 2020
3 TIME 16:39:15
0 @I3@ INDI
1 NAME Frank /Henderson/
2 GIVN Frank
2 SURN Henderson
2 _PRIM Y
1 SEX M
1 FAMS @F1@
1 _UID 5B6AA0D6-1F76-4C4D-8F07-FF7D1F80B5D7
1 CHAN
2 DATE 15 APR 2020
3 TIME 16:41:07
";

#[test]
fn one_family_of_three_persons_is_mapped() {
    let input = format!(
        "{}{}{}",
        HEADER,
        THREE_PERSONS,
        "0 @F1@ FAM
1 HUSB @I3@
1 WIFE @I2@
1 CHIL @I1@
1 CHAN
2 DATE 15 APR 2020
3 TIME 16:40:57
0 TRLR
"
    );
    let mapped = gedcom_to_relation(&input).unwrap();
    let ids: Vec<u32> = mapped.persons.iter().map(|p| p.id()).collect();
    assert_eq!(ids, vec![1, 2, 3]);
    assert_eq!(
        mapped.persons[0],
        person(
            1,
            Gender::Male,
            at(16, 38, 50),
            vec![name("Gavin", "Henderson")],
            Some(vec![Birth {
                date_detail: Some(Date { year: 1990, month: 1, day: 1 }),
                fact_type_id: FactTypeId::Birth,
                place: None,
                preferred: true,
            }]),
        )
    );
    assert_eq!(
        mapped.persons[1],
        person(
            2,
            Gender::Female,
            at(16, 39, 15),
            vec![name("Jane", "Reed")],
            Some(vec![Birth {
                date_detail: None,
                fact_type_id: FactTypeId::Birth,
                place: Some(Place::new("Dundee")),
                preferred: true,
            }]),
        )
    );
    assert_eq!(
        mapped.persons[2],
        person(3, Gender::Male, at(16, 41, 7), vec![name("Frank", "Henderson")], None)
    );
    assert_eq!(
        mapped.familys,
        vec![Family { date_created: at(16, 40, 57), father_id: 3, id: 10_001, mother_id: 2 }]
    );
    assert_eq!(mapped.familys[0].id(), 10_001);
    assert_eq!(
        mapped.childs,
        vec![Child {
            child_id: 1,
            family_id: 10_001,
            id: 1_000_001,
            relationship_to_father: 1,
            relationship_to_mother: 1,
        }]
    );
}

#[test]
fn two_children_of_one_family_get_two_rows() {
    let input = format!(
        "{}{}{}",
        HEADER,
        THREE_PERSONS,
        "0 @I4@ INDI
1 NAME Rachel /Henderson/
2 GIVN Rachel
2 SURN Henderson
2 _PRIM Y
1 SEX M
1 FAMC @F1@
1 CHAN
2 DATE 15 APR 2020
3 TIME 16:44:00
0 @F1@ FAM
1 HUSB @I3@
1 WIFE @I2@
1 CHIL @I1@
1 CHIL @I4@
1 CHAN
2 DATE 15 APR 2020
3 TIME 16:43:01
0 TRLR
"
    );
    let mapped = gedcom_to_relation(&input).unwrap();
    assert_eq!(mapped.persons.len(), 4);
    assert_eq!(mapped.familys.len(), 1);
    assert_eq!(
        mapped.childs,
        vec![Child::new(1, 1_000_001, 10_001), Child::new(4, 1_000_002, 10_001)]
    );
    assert_ne!(mapped.childs[0].id, mapped.childs[1].id);
    assert_eq!(mapped.childs[0].family_id, mapped.familys[0].id);
    assert_eq!(mapped.childs[1].family_id, mapped.familys[0].id);
}

#[test]
fn individual_with_only_a_name_is_left_out() {
    let mapped = gedcom_to_relation("0 @I1@ INDI\n1 NAME Gavin /Henderson/\n").unwrap();
    assert!(mapped.persons.is_empty());
    assert!(mapped.familys.is_empty());
    assert!(mapped.childs.is_empty());
}

#[test]
fn individual_without_a_label_is_left_out() {
    let mapped = gedcom_to_relation(
        "0 INDI\n1 SEX M\n1 CHAN\n2 DATE 15 APR 2020\n3 TIME 16:19:21\n",
    )
    .unwrap();
    assert!(mapped.persons.is_empty());
}

#[test]
fn individual_with_an_unreadable_change_is_left_out() {
    let mapped = gedcom_to_relation(
        "0 @I1@ INDI\n1 SEX M\n1 CHAN\n2 DATE 15 APR 2020\n3 TIME 16:19:21\n1 CHAN\n2 DATE 31 FEB 2020\n3 TIME 16:19:21\n",
    )
    .unwrap();
    assert!(mapped.persons.is_empty());
}

#[test]
fn family_with_an_unresolved_parent_is_left_out_and_keeps_its_rows() {
    let input = "0 @I1@ INDI
1 SEX F
1 CHAN
2 DATE 15 APR 2020
3 TIME 16:19:21
0 @F1@ FAM
1 HUSB @I9@
1 WIFE @I1@
1 CHIL @I1@
1 CHAN
2 DATE 15 APR 2020
3 TIME 16:40:57
0 @F2@ FAM
1 HUSB @I1@
1 WIFE @I1@
1 CHAN
2 DATE 15 APR 2020
3 TIME 16:40:58
";
    let mapped = gedcom_to_relation(input).unwrap();
    assert_eq!(mapped.persons.len(), 1);
    assert_eq!(mapped.childs, vec![Child::new(1, 1_000_001, 10_001)]);
    assert_eq!(
        mapped.familys,
        vec![Family { date_created: at(16, 40, 58), father_id: 1, id: 10_001, mother_id: 1 }]
    );
}

#[test]
fn records_that_are_not_modeled_are_ignored() {
    let mapped = gedcom_to_relation(HEADER).unwrap();
    assert!(mapped.persons.is_empty());
    assert!(mapped.familys.is_empty());
    assert!(mapped.childs.is_empty());
}

#[test]
fn mapping_twice_gives_the_same_response() {
    let input = format!("{}{}", HEADER, THREE_PERSONS);
    let first = gedcom_to_relation(&input).unwrap();
    let second = gedcom_to_relation(&input).unwrap();
    assert_eq!(first, second);
}

#[test]
fn a_line_that_cannot_be_read_fails_the_document() {
    let actual = gedcom_to_relation("0 HEAD\n1 INVALID x\n0 TRLR\n");
    let expected = Err(ParseError { remaining: " x\n0 TRLR\n", kind: ParseErrorKind::Tag });
    assert_eq!(actual, expected);
}

#[test]
fn a_last_line_without_its_end_fails_the_document() {
    let actual = gedcom_to_relation("0 HEAD\n0 TRLR");
    let expected = Err(ParseError { remaining: "", kind: ParseErrorKind::Terminator });
    assert_eq!(actual, expected);
}

#[test]
fn a_family_takes_the_last_husband_wife_and_change_that_resolve() {
    let input = format!(
        "{}{}",
        THREE_PERSONS,
        "0 @F1@ FAM
1 HUSB @I1@
1 HUSB @I3@
1 HUSB @I9@
1 WIFE @I2@
1 WIFE
1 CHIL @I9@
1 CHIL @I1@
1 CHIL @I2@
1 CHIL @I3@
1 CHAN
2 DATE 15 APR 2020
3 TIME 16:40:57
1 CHAN
2 DATE 15 APR 2020
0 @F2@ FAM
1 CHIL @I1@
0 @F3@ FAM
1 HUSB @I3@
1 WIFE @I2@
1 CHAN
2 DATE 16 APR 2020
3 TIME 01:02:03
"
    );
    let mapped = gedcom_to_relation(&input).unwrap();
    assert_eq!(
        mapped.familys,
        vec![
            Family { date_created: at(16, 40, 57), father_id: 3, id: 10_001, mother_id: 2 },
            Family {
                date_created: DateTime {
                    date: Date { year: 2020, month: 4, day: 16 },
                    hour: 1,
                    minute: 2,
                    second: 3,
                    nanosecond: 0,
                },
                father_id: 3,
                id: 10_002,
                mother_id: 2,
            },
        ]
    );
    assert_eq!(
        mapped.childs,
        vec![
            Child::new(1, 1_000_001, 10_001),
            Child::new(2, 1_000_002, 10_001),
            Child::new(3, 1_000_003, 10_001),
            Child::new(1, 1_000_004, 10_002),
        ]
    );
}
