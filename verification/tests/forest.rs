use gedcom::models::gedcom::{GedcomLine, GedcomLineTag, GedcomTree, GedcomTreeNode, GedcomTreeNodeBuilder};
use gedcom::parser::parse_gedcom;

fn lines(levels: &[u8]) -> Vec<GedcomLine> {
    levels
        .iter()
        .enumerate()
        .map(|(i, level)| GedcomLine {
            level: *level,
            line_value: Some(i.to_string()),
            tag: GedcomLineTag::Note,
            xref_id: None,
        })
        .collect()
}

fn flatten(node: &GedcomTreeNode, into: &mut Vec<GedcomLine>) {
    into.push(GedcomLine {
        level: node.level(),
        line_value: node.line_value().clone(),
        tag: node.tag().clone(),
        xref_id: node.xref_id().clone(),
    });
    for child in node.children() {
        flatten(child, into);
    }
}

fn proper(node: &GedcomTreeNode) -> bool {
    node.children().iter().all(|child| child.level() == node.level() + 1 && proper(child))
}

fn shape(node: &GedcomTreeNode) -> String {
    let below: Vec<String> = node.children().iter().map(shape).collect();
    format!("{}[{}]", node.line_value().clone().unwrap(), below.join(","))
}

#[test]
fn well_nested_lines_come_back_in_pre_order() {
    let levels = [0, 1, 2, 2, 3, 1, 2, 0, 0, 1, 1, 2, 3, 4, 2, 1];
    let tree = GedcomTree::from(lines(&levels));
    assert_eq!(tree.nodes().len(), 3);
    let mut flat = Vec::new();
    for root in tree.nodes() {
        assert_eq!(root.level(), 0);
        assert!(proper(root));
        flatten(root, &mut flat);
    }
    assert_eq!(flat, lines(&levels));
    let shapes: Vec<String> = tree.nodes().iter().map(shape).collect();
    assert_eq!(
        shapes,
        vec!["0[1[2[],3[4[]]],5[6[]]]", "7[]", "8[9[],10[11[12[13[]]],14[]],15[]]"]
    );
}

#[test]
fn lines_that_are_not_well_nested_are_placed_all_the_same() {
    let tree = GedcomTree::from(lines(&[0, 2]));
    let shapes: Vec<String> = tree.nodes().iter().map(shape).collect();
    assert_eq!(shapes, vec!["0[1[]]"]);
    assert!(!proper(&tree.nodes()[0]));
    let tree = GedcomTree::from(lines(&[0, 1, 3, 2]));
    let shapes: Vec<String> = tree.nodes().iter().map(shape).collect();
    assert_eq!(shapes, vec!["0[1[3[]],2[]]"]);
    let tree = GedcomTree::from(lines(&[1, 2, 0, 1]));
    let shapes: Vec<String> = tree.nodes().iter().map(shape).collect();
    assert_eq!(shapes, vec!["2[3[]]"]);
    let tree = GedcomTree::from(lines(&[]));
    assert!(tree.nodes().is_empty());
    let tree = GedcomTree::from(lines(&[0, 255]));
    assert_eq!(tree.nodes()[0].children().len(), 1);
}

#[test]
fn node_builder_puts_the_children_last_first() {
    let line = lines(&[0]).pop().unwrap();
    let children: Vec<GedcomTreeNode> =
        lines(&[1, 1, 1]).into_iter().map(|l| GedcomTreeNodeBuilder::from(l).build()).collect();
    let mut builder = GedcomTreeNodeBuilder::from(line);
    let node = builder.with_children(children).build();
    assert_eq!(shape(&node), "0[2[],1[],0[]]");
    assert!(builder.children.is_empty());
    let again = builder.build();
    assert_eq!(shape(&again), "0[]");
    assert_eq!(node.clone(), node);
}

#[test]
fn a_document_is_arranged_by_its_levels() {
    let (_, read) = parse_gedcom("0 @I1@ INDI\n1 NAME Jane /Reed/\n2 GIVN Jane\n2 SURN Reed\n1 SEX F\n0 TRLR\n").unwrap();
    let tree = GedcomTree::from(read);
    assert_eq!(tree.nodes().len(), 2);
    let individual = &tree.nodes()[0];
    assert_eq!(individual.tag(), &GedcomLineTag::Individual);
    assert_eq!(individual.xref_id(), &Some(String::from("@I1@")));
    assert_eq!(individual.children().len(), 2);
    assert_eq!(individual.children()[0].children().len(), 2);
    assert_eq!(individual.children()[0].children()[1].line_value(), &Some(String::from("Reed")));
    assert_eq!(tree.nodes()[1].tag(), &GedcomLineTag::Trailer);
}
