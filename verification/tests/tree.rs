use gedcom::models::gedcom::{
    GedcomLine, GedcomLineTag, GedcomTree, GedcomTreeNode, GedcomTreeNodeBuilder,
};

#[test]
fn gedcom_tree_node_builder_works_correctly_with_no_children() {
    let input = GedcomLine::builder()
        .with_level(0)
        .with_tag(GedcomLineTag::Individual)
        .build()
        .unwrap();

    let actual = GedcomTreeNodeBuilder::from(input).build();
    let expected = GedcomTreeNode {
        children: vec![],
        level: 0,
        line_value: None,
        tag: GedcomLineTag::Individual,
        xref_id: None,
    };

    assert_eq!(actual, expected);
}

#[test]
fn gedcom_tree_node_builder_works_correctly_with_children() {
    let line = GedcomLine::builder()
        .with_level(0)
        .with_tag(GedcomLineTag::Individual)
        .build()
        .unwrap();

    let child = GedcomTreeNode {
        children: vec![],
        level: 1,
        line_value: Some(String::from("Name")),
        tag: GedcomLineTag::Name,
        xref_id: None,
    };

    let expected_child = child.clone();

    let actual = GedcomTreeNodeBuilder::from(line)
        .with_children(vec![child])
        .build();

    let expected = GedcomTreeNode {
        children: vec![expected_child],
        level: 0,
        line_value: None,
        tag: GedcomLineTag::Individual,
        xref_id: None,
    };

    assert_eq!(actual, expected);
}

#[test]
fn gedcom_tree_from_works_with_simple_example() {
    let indi_line = GedcomLine::builder()
        .with_level(0)
        .with_tag(GedcomLineTag::Individual)
        .build()
        .unwrap();

    let name_line = GedcomLine::builder()
        .with_level(1)
        .with_optional_line_value(Some(String::from("Name")))
        .with_tag(GedcomLineTag::Name)
        .build()
        .unwrap();

    let given_name_line = GedcomLine::builder()
        .with_level(2)
        .with_optional_line_value(Some(String::from("Given Name")))
        .with_tag(GedcomLineTag::GivenName)
        .build()
        .unwrap();

    let input = vec![indi_line, name_line, given_name_line];

    let given_name_node = GedcomTreeNode {
        children: vec![],
        level: 2,
        line_value: Some(String::from("Given Name")),
        tag: GedcomLineTag::GivenName,
        xref_id: None,
    };

    let name_node = GedcomTreeNode {
        children: vec![given_name_node],
        level: 1,
        line_value: Some(String::from("Name")),
        tag: GedcomLineTag::Name,
        xref_id: None,
    };

    let indi_node = GedcomTreeNode {
        children: vec![name_node],
        level: 0,
        line_value: None,
        tag: GedcomLineTag::Individual,
        xref_id: None,
    };

    let actual = GedcomTree::from(input);
    let expected = GedcomTree {
        nodes: vec![indi_node],
    };

    assert_eq!(actual, expected);
}
