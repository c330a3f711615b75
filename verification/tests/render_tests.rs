use ralaire::render::{command_list_plan, CommandKind, ListEntry};
use CommandKind::{Draw, PopLayer, PushLayer};
use ListEntry::{Command, Pop};

#[test]
fn empty_stack_has_no_list() {
    assert!(command_list_plan(&vec![]).is_empty());
}

#[test]
fn one_layer_makes_one_list() {
    let lists = command_list_plan(&vec![PushLayer, Draw, PopLayer]);
    assert_eq!(lists, vec![vec![Command(0), Command(1), Command(2)]]);
}

#[test]
fn nested_layer_closes_and_reopens() {
    let lists = command_list_plan(&vec![PushLayer, Draw, PushLayer, Draw, PopLayer, PopLayer]);
    assert_eq!(
        lists,
        vec![
            vec![Command(0), Command(1), Pop],
            vec![Command(0), Command(2), Command(3), Command(4), Command(5)],
        ]
    );
}

#[test]
fn sibling_layers_start_fresh_lists() {
    let lists = command_list_plan(&vec![PushLayer, PopLayer, PushLayer, Draw, PopLayer]);
    assert_eq!(
        lists,
        vec![
            vec![Command(0), Command(1)],
            vec![Command(2), Command(3), Command(4)],
        ]
    );
}

#[test]
fn pop_with_nothing_open_is_kept() {
    let lists = command_list_plan(&vec![PushLayer, PopLayer, PopLayer, PushLayer]);
    assert_eq!(
        lists,
        vec![vec![Command(0), Command(1), Command(2)], vec![Command(3)]]
    );
}

#[test]
fn one_list_per_push() {
    let kinds = vec![PushLayer, Draw, PushLayer, PushLayer, Draw, PopLayer, Draw, PushLayer];
    let lists = command_list_plan(&kinds);
    assert_eq!(lists.len(), 4);
    for list in &lists {
        match list[0] {
            Command(j) => assert_eq!(kinds[j], PushLayer),
            Pop => panic!("a list starts with a push"),
        }
    }
}

#[test]
fn drawing_commands_keep_their_order() {
    let kinds = vec![PushLayer, Draw, PushLayer, Draw, PushLayer, Draw, PopLayer, Draw, PopLayer, Draw];
    let lists = command_list_plan(&kinds);
    let mut draws = Vec::new();
    for list in &lists {
        for entry in list {
            if let Command(j) = entry {
                if kinds[*j] == Draw {
                    draws.push(*j);
                }
            }
        }
    }
    assert_eq!(draws, vec![1, 3, 5, 7, 9]);
}
