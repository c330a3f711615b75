use ralaire::view::{
    flex, flex_axis, image, CrossAxisAlignment, ElementSplice, FlexAxis, FlexDirection,
    FlexSplice, Header, ImageView, JustifyContent, RootView, SuperElement, View, ViewMarker,
    ViewSequence, Window, WindowControls,
};

struct Label(&'static str);

impl ViewMarker for Label {}

impl View<()> for Label {
    type Element = String;
    fn built(&self, element: String) -> bool {
        element == self.0
    }
    fn rebuilt(&self, _prev: &Self, _before: String, after: String) -> bool {
        after == self.0
    }
    fn torn_down(&self, before: String, after: String) -> bool {
        before == after
    }
    fn build(&self) -> String {
        self.0.to_string()
    }
    fn rebuild(&self, old: &Self, element: &mut String) {
        if self.0 != old.0 {
            *element = self.0.to_string();
        }
    }
    fn teardown(&self, _: &mut String) {}
}

#[derive(Debug, PartialEq)]
struct Boxed(String);

impl SuperElement<String> for Boxed {
    fn holds(&self, child: String) -> bool {
        self.0 == child
    }
    fn upcast(child: String) -> Self {
        Boxed(child)
    }
    fn with_downcast_val<R, F: FnOnce(&mut String) -> R>(&mut self, f: F) -> (&mut Self, R) {
        let r = f(&mut self.0);
        (self, r)
    }
}

fn names(v: Vec<Boxed>) -> Vec<String> {
    v.into_iter().map(|b| b.0).collect()
}

fn rebuilt<S: ViewSequence<(), Boxed>>(new: &S, old: &S) -> Vec<String> {
    let mut v = vec![Boxed("before".to_string())];
    old.seq_build(&mut v);
    v.push(Boxed("after".to_string()));
    let mut splice = FlexSplice::new(v);
    splice.skip(1);
    new.seq_rebuild(old, &mut splice);
    splice.skip(1);
    names(splice.into_children())
}

fn built<S: ViewSequence<(), Boxed>>(s: &S) -> Vec<Boxed> {
    let mut v = vec![Boxed("before".to_string())];
    s.seq_build(&mut v);
    v
}

#[test]
fn sequences_build_one_element_per_view_in_order() {
    let v = built(&vec![Label("a"), Label("b")]);
    assert_eq!(v.len(), 3);
    assert_eq!(v[0], Boxed("before".to_string()));
    assert_eq!(v[1], Boxed("a".to_string()));
    assert_eq!(v[2], Boxed("b".to_string()));
    assert_eq!(built(&None::<Label>).len(), 1);
    assert_eq!(built(&Some(Label("x")))[1], Boxed("x".to_string()));
    assert_eq!(built(&()).len(), 1);
    let t = built(&(Label("p"), vec![Label("q"), Label("r")], None::<Label>, (Label("s"),)));
    let names: Vec<&str> = t.iter().map(|b| b.0.as_str()).collect();
    assert_eq!(names, vec!["before", "p", "q", "r", "s"]);
    let a = built(&[Label("1"), Label("2"), Label("3")]);
    assert_eq!(a.len(), 4);
}

#[test]
fn flex_defaults_and_builders() {
    let f = flex(vec![Label("a")]);
    assert_eq!(f.flex_direction, FlexDirection::Column);
    assert_eq!(f.cross_axis_alignment, CrossAxisAlignment::Start);
    assert_eq!(f.justify_content, JustifyContent::Start);
    let f = f
        .direction(FlexDirection::RowReversed)
        .cross_axis_alignment(CrossAxisAlignment::Center)
        .justify_content(JustifyContent::SpaceBetween);
    assert_eq!(f.flex_direction, FlexDirection::RowReversed);
    assert_eq!(f.cross_axis_alignment, CrossAxisAlignment::Center);
    assert_eq!(f.justify_content, JustifyContent::SpaceBetween);
    assert_eq!(f.children.len(), 1);
}

#[test]
fn flex_axes() {
    assert_eq!(flex_axis(FlexDirection::Column), (FlexAxis::Vertical, false));
    assert_eq!(flex_axis(FlexDirection::Row), (FlexAxis::Horizontal, false));
    assert_eq!(flex_axis(FlexDirection::ColumnReversed), (FlexAxis::Vertical, true));
    assert_eq!(flex_axis(FlexDirection::RowReversed), (FlexAxis::Horizontal, true));
}

#[test]
fn header_window_image_root() {
    let h = Header::new(Label("left"), Label("middle"), Label("right"));
    assert_eq!(h.left.0, "left");
    assert_eq!(h.middle.0, "middle");
    assert_eq!(h.right.0, "right");
    let _controls: &WindowControls = &h.window_controls;
    let w = Window::new(h, Label("content"), "Title".to_string());
    assert_eq!(w.title, "Title");
    assert_eq!(w.content.0, "content");
    let i = image(vec![1, 2, 3]);
    assert_eq!(i.bytes, vec![1, 2, 3]);
    assert_eq!(ImageView::new(vec![9]).bytes, vec![9]);
    let r: RootView<(), Label> = RootView::new(Label("root"));
    assert_eq!(r.child.0, "root");
}

#[test]
fn rebuilding_a_vector_keeps_one_element_per_view() {
    let old = vec![Label("a"), Label("b")];
    assert_eq!(rebuilt(&vec![Label("a"), Label("c")], &old), vec!["before", "a", "c", "after"]);
    assert_eq!(
        rebuilt(&vec![Label("x"), Label("y"), Label("z")], &old),
        vec!["before", "x", "y", "z", "after"]
    );
    assert_eq!(rebuilt(&vec![Label("q")], &old), vec!["before", "q", "after"]);
    assert_eq!(rebuilt(&vec![], &old), vec!["before", "after"]);
}

#[test]
fn rebuilding_options_and_tuples() {
    assert_eq!(rebuilt(&Some(Label("n")), &None), vec!["before", "n", "after"]);
    assert_eq!(rebuilt(&None, &Some(Label("o"))), vec!["before", "after"]);
    assert_eq!(rebuilt(&Some(Label("n")), &Some(Label("o"))), vec!["before", "n", "after"]);
    assert_eq!(
        rebuilt(&(Label("1"), Some(Label("2"))), &(Label("0"), None)),
        vec!["before", "1", "2", "after"]
    );
    assert_eq!(
        rebuilt(&[Label("3"), Label("4")], &[Label("1"), Label("2")]),
        vec!["before", "3", "4", "after"]
    );
}

#[test]
fn tearing_down_removes_the_elements() {
    let old = vec![Label("a"), Label("b")];
    let mut v = vec![Boxed("before".to_string())];
    old.seq_build(&mut v);
    let mut splice = FlexSplice::new(v);
    splice.skip(1);
    old.seq_teardown(&mut splice);
    assert_eq!(names(splice.into_children()), vec!["before"]);
}

#[test]
fn flex_splice_operations() {
    let mut splice = FlexSplice::new(vec![1, 2, 3]);
    splice.insert(0);
    let seen = splice.mutate(|e: &mut i32| {
        *e *= 10;
        *e
    });
    assert_eq!(seen, 10);
    let removed = splice.remove(|e: &mut i32| *e);
    assert_eq!(removed, 2);
    let pushed = splice.with_scratch(|scratch: &mut Vec<i32>| {
        scratch.push(7);
        scratch.push(8);
        scratch.len()
    });
    assert_eq!(pushed, 2);
    splice.skip(1);
    assert_eq!(splice.into_children(), vec![0, 10, 7, 8, 3]);
}

#[test]
fn label_relations_hold_of_what_it_builds() {
    let a = Label("a");
    let element = a.build();
    assert!(a.built(element.clone()));
    let mut e = element.clone();
    let b = Label("b");
    b.rebuild(&a, &mut e);
    assert!(b.rebuilt(&a, element.clone(), e.clone()));
    assert!(Boxed::upcast(e.clone()).holds(e));
}
