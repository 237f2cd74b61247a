use morrigu::layers::{LayerCall, LayerStack, Transition};

fn names(calls: &[LayerCall<&'static str>]) -> Vec<String> {
    calls
        .iter()
        .map(|c| match c {
            LayerCall::Detach(l) => format!("detach {l}"),
            LayerCall::Resume(i) => format!("resume {i}"),
            LayerCall::Pause(i) => format!("pause {i}"),
            LayerCall::Attach(i) => format!("attach {i}"),
        })
        .collect()
}

#[test]
fn push_pauses_previous_and_attaches_new() {
    let mut s = LayerStack::new();
    assert_eq!(names(&s.push_layer("base")), vec!["attach 0"]);
    assert_eq!(names(&s.push_layer("overlay")), vec!["pause 0", "attach 1"]);
    assert_eq!(s.len(), 2);
    assert_eq!(s.top(), Some(&"overlay"));
}

#[test]
fn pop_detaches_and_resumes() {
    let mut s = LayerStack::new();
    s.push_layer("base");
    s.push_layer("overlay");
    assert_eq!(names(&s.pop_layer()), vec!["detach overlay", "resume 0"]);
    assert_eq!(s.top(), Some(&"base"));
    assert_eq!(names(&s.pop_layer()), vec!["detach base"]);
    assert_eq!(s.top(), None);
}

#[test]
fn switch_replaces_top() {
    let mut s = LayerStack::new();
    s.push_layer("base");
    s.push_layer("menu");
    let (calls, exit) = s.handle_transition(Transition::Switch("game"));
    assert!(!exit);
    assert_eq!(names(&calls), vec!["detach menu", "resume 0", "pause 0", "attach 1"]);
    assert_eq!(s.len(), 2);
    assert_eq!(s.get(0), Some(&"base"));
    assert_eq!(s.top(), Some(&"game"));
}

#[test]
fn shutdown_and_continue() {
    let mut s = LayerStack::new();
    s.push_layer("base");
    let (calls, exit) = s.handle_transition(Transition::Shutdown);
    assert!(calls.is_empty() && exit);
    let (calls, exit) = s.handle_transition(Transition::Continue);
    assert!(calls.is_empty() && !exit);
    assert_eq!(s.len(), 1);
}

#[test]
fn push_then_pop_restores_stack() {
    let mut s = LayerStack::new();
    s.push_layer("base");
    s.handle_transition(Transition::Push("popup"));
    let (calls, _) = s.handle_transition(Transition::Pop);
    assert_eq!(names(&calls), vec!["detach popup", "resume 0"]);
    assert_eq!(s.len(), 1);
    assert_eq!(s.top(), Some(&"base"));
}
