use std::cell::{Cell, RefCell};
use std::collections::VecDeque;
use std::rc::Rc;

use bhv_async::{
    ChildPoll, Composite, Decorator, DecoratorContinue, DecoratorType, GroupBehaviorType,
    InterruptAction, Inverter, PrioritySelector, RunStatus, Sequence, Step, UntilFailure,
    UntilSuccess,
};

use ChildPoll::{Pending, Ready};
use RunStatus::{Failure, Success};

// A small synchronous driver: leaves are scripted, nodes are the library's
// machines, and every task is polled until it is ready.

type Cond = Rc<dyn Fn() -> bool>;

struct LeafDef {
    // One script per run; the last one is reused once the others are spent.
    scripts: RefCell<VecDeque<Vec<ChildPoll>>>,
    starts: Cell<usize>,
    abandoned: Cell<usize>,
}

#[derive(Clone)]
enum Def {
    Leaf(Rc<LeafDef>),
    Node(Rc<dyn Fn() -> Box<dyn Machine>>),
}

trait Machine {
    fn resume(&mut self) -> Step;
    fn on_child(&mut self, poll: ChildPoll) -> Step;
    fn on_condition(&mut self, holds: bool) -> Step;
    fn factory(&self, index: usize) -> Def;
    fn condition(&self) -> bool;
}

struct LeafTask {
    def: Rc<LeafDef>,
    script: Vec<ChildPoll>,
    pos: usize,
    finished: bool,
}

impl Drop for LeafTask {
    fn drop(&mut self) {
        if !self.finished {
            self.def.abandoned.set(self.def.abandoned.get() + 1);
        }
    }
}

enum Task {
    Leaf(LeafTask),
    Node(Box<dyn Machine>, Option<Box<Task>>),
}

fn start(def: &Def) -> Task {
    match def {
        Def::Leaf(leaf) => {
            leaf.starts.set(leaf.starts.get() + 1);
            let mut scripts = leaf.scripts.borrow_mut();
            let script = if scripts.len() > 1 {
                scripts.pop_front().unwrap()
            } else {
                scripts.front().unwrap().clone()
            };
            Task::Leaf(LeafTask { def: leaf.clone(), script, pos: 0, finished: false })
        }
        Def::Node(make) => Task::Node(make(), None),
    }
}

fn poll_held(held: &mut Option<Box<Task>>) -> ChildPoll {
    let poll = poll(held.as_mut().expect("a child is held"));
    if poll != Pending {
        *held = None;
    }
    poll
}

fn poll(task: &mut Task) -> ChildPoll {
    match task {
        Task::Leaf(leaf) => {
            let i = leaf.pos.min(leaf.script.len() - 1);
            leaf.pos += 1;
            let poll = leaf.script[i];
            if poll != Pending {
                leaf.finished = true;
            }
            poll
        }
        Task::Node(machine, held) => {
            let mut step = machine.resume();
            loop {
                step = match step {
                    Step::CheckCondition => {
                        let holds = machine.condition();
                        machine.on_condition(holds)
                    }
                    Step::Start(i) => {
                        *held = Some(Box::new(start(&machine.factory(i))));
                        let p = poll_held(held);
                        machine.on_child(p)
                    }
                    Step::PollChild => {
                        let p = poll_held(held);
                        machine.on_child(p)
                    }
                    Step::Done(status) => {
                        *held = None;
                        return Ready(status);
                    }
                    Step::Wait | Step::Reschedule => return Pending,
                };
            }
        }
    }
}

/// Runs one task from `def` to the end: its outcome and how many resumptions
/// it took.
fn run(def: &Def) -> (RunStatus, usize) {
    let mut task = start(def);
    for resumes in 1..1000 {
        if let Ready(status) = poll(&mut task) {
            return (status, resumes);
        }
    }
    panic!("the run did not finish");
}

fn leaf_runs(scripts: Vec<Vec<ChildPoll>>) -> (Composite<Def>, Rc<LeafDef>) {
    let def = Rc::new(LeafDef {
        scripts: RefCell::new(scripts.into_iter().collect()),
        starts: Cell::new(0),
        abandoned: Cell::new(0),
    });
    (Composite::new_action(Def::Leaf(def.clone())), def)
}

fn leaf(script: Vec<ChildPoll>) -> (Composite<Def>, Rc<LeafDef>) {
    leaf_runs(vec![script])
}

fn done(status: RunStatus) -> (Composite<Def>, Rc<LeafDef>) {
    leaf(vec![Ready(status)])
}

fn node<M: Machine + Clone + 'static>(name: &str, machine: M) -> Composite<Def> {
    Composite::new(name.to_string(), Def::Node(Rc::new(move || Box::new(machine.clone()))))
}

fn cond(value: bool) -> Cond {
    Rc::new(move || value)
}

impl Machine for Sequence<Def> {
    fn resume(&mut self) -> Step {
        Sequence::resume(self)
    }
    fn on_child(&mut self, poll: ChildPoll) -> Step {
        Sequence::on_child(self, poll)
    }
    fn on_condition(&mut self, _: bool) -> Step {
        panic!("no condition")
    }
    fn factory(&self, index: usize) -> Def {
        self.child(index).task_production.clone()
    }
    fn condition(&self) -> bool {
        panic!("no condition")
    }
}

impl Machine for PrioritySelector<Def> {
    fn resume(&mut self) -> Step {
        PrioritySelector::resume(self)
    }
    fn on_child(&mut self, poll: ChildPoll) -> Step {
        PrioritySelector::on_child(self, poll)
    }
    fn on_condition(&mut self, _: bool) -> Step {
        panic!("no condition")
    }
    fn factory(&self, index: usize) -> Def {
        self.child(index).task_production.clone()
    }
    fn condition(&self) -> bool {
        panic!("no condition")
    }
}

impl Machine for Decorator<Def, Cond> {
    fn resume(&mut self) -> Step {
        Decorator::resume(self)
    }
    fn on_child(&mut self, poll: ChildPoll) -> Step {
        Decorator::on_child(self, poll)
    }
    fn on_condition(&mut self, holds: bool) -> Step {
        Decorator::on_condition(self, holds)
    }
    fn factory(&self, _: usize) -> Def {
        self.child().task_production.clone()
    }
    fn condition(&self) -> bool {
        (Decorator::condition(self))()
    }
}

impl Machine for DecoratorContinue<Def, Cond> {
    fn resume(&mut self) -> Step {
        DecoratorContinue::resume(self)
    }
    fn on_child(&mut self, poll: ChildPoll) -> Step {
        DecoratorContinue::on_child(self, poll)
    }
    fn on_condition(&mut self, holds: bool) -> Step {
        DecoratorContinue::on_condition(self, holds)
    }
    fn factory(&self, _: usize) -> Def {
        self.child().task_production.clone()
    }
    fn condition(&self) -> bool {
        (DecoratorContinue::condition(self))()
    }
}

impl Machine for InterruptAction<Def, Cond> {
    fn resume(&mut self) -> Step {
        InterruptAction::resume(self)
    }
    fn on_child(&mut self, poll: ChildPoll) -> Step {
        InterruptAction::on_child(self, poll)
    }
    fn on_condition(&mut self, holds: bool) -> Step {
        InterruptAction::on_condition(self, holds)
    }
    fn factory(&self, _: usize) -> Def {
        self.child().task_production.clone()
    }
    fn condition(&self) -> bool {
        (InterruptAction::condition(self))()
    }
}

impl Machine for Inverter<Def> {
    fn resume(&mut self) -> Step {
        Inverter::resume(self)
    }
    fn on_child(&mut self, poll: ChildPoll) -> Step {
        Inverter::on_child(self, poll)
    }
    fn on_condition(&mut self, _: bool) -> Step {
        panic!("no condition")
    }
    fn factory(&self, _: usize) -> Def {
        self.child().task_production.clone()
    }
    fn condition(&self) -> bool {
        panic!("no condition")
    }
}

impl Machine for UntilSuccess<Def> {
    fn resume(&mut self) -> Step {
        UntilSuccess::resume(self)
    }
    fn on_child(&mut self, poll: ChildPoll) -> Step {
        UntilSuccess::on_child(self, poll)
    }
    fn on_condition(&mut self, _: bool) -> Step {
        panic!("no condition")
    }
    fn factory(&self, _: usize) -> Def {
        self.child().task_production.clone()
    }
    fn condition(&self) -> bool {
        panic!("no condition")
    }
}

impl Machine for UntilFailure<Def> {
    fn resume(&mut self) -> Step {
        UntilFailure::resume(self)
    }
    fn on_child(&mut self, poll: ChildPoll) -> Step {
        UntilFailure::on_child(self, poll)
    }
    fn on_condition(&mut self, _: bool) -> Step {
        panic!("no condition")
    }
    fn factory(&self, _: usize) -> Def {
        self.child().task_production.clone()
    }
    fn condition(&self) -> bool {
        panic!("no condition")
    }
}

fn seq(childs: Vec<Composite<Def>>) -> Composite<Def> {
    node("Sequence", Sequence::new(childs))
}

fn sel(childs: Vec<Composite<Def>>) -> Composite<Def> {
    node("PrioritySelector", PrioritySelector::new(childs))
}

fn dec_continue(c: Cond, child: Composite<Def>) -> Composite<Def> {
    node("DecoratorContinue", DecoratorContinue::new(c, child))
}

#[test]
fn run_tree() {
    let (a, _) = done(Success);
    let (b, _) = done(Success);
    let (c, _) = done(Success);
    let (d, _) = done(Success);
    let tree = seq(vec![
        a,
        dec_continue(cond(true), b),
        seq(vec![c, dec_continue(cond(true), d)]),
    ]);
    assert_eq!(run(&tree.task_production).0, Success);
}

#[test]
fn empty_sequence_succeeds_on_first_resume() {
    let mut s: Sequence<Def> = Sequence::new(vec![]);
    assert_eq!(s.resume(), Step::Done(Success));
    assert_eq!(run(&seq(vec![]).task_production), (Success, 1));
}

#[test]
fn empty_selector_fails_on_first_resume() {
    let mut s: PrioritySelector<Def> = PrioritySelector::new(vec![]);
    assert_eq!(s.resume(), Step::Done(Failure));
    assert_eq!(run(&sel(vec![]).task_production), (Failure, 1));
}

#[test]
fn sequence_stops_at_first_failure() {
    let (a, ca) = done(Success);
    let (b, cb) = done(Success);
    let (c, cc) = done(Failure);
    let (d, cd) = done(Success);
    let tree = seq(vec![a, b, c, d]);
    assert_eq!(run(&tree.task_production).0, Failure);
    let starts: Vec<usize> = [&ca, &cb, &cc, &cd].iter().map(|l| l.starts.get()).collect();
    assert_eq!(starts, vec![1, 1, 1, 0]);
}

#[test]
fn sequence_of_three_ending_in_failure() {
    let (a, ca) = done(Success);
    let (b, cb) = done(Success);
    let (c, cc) = done(Failure);
    let tree = seq(vec![a, b, c]);
    assert_eq!(run(&tree.task_production).0, Failure);
    assert_eq!(ca.starts.get() + cb.starts.get() + cc.starts.get(), 3);
}

#[test]
fn sequence_succeeds_when_all_succeed() {
    let (a, _) = done(Success);
    let (b, _) = leaf(vec![Pending, Pending, Ready(Success)]);
    assert_eq!(run(&seq(vec![a, b]).task_production).0, Success);
}

#[test]
fn selector_stops_at_first_success() {
    let (a, ca) = done(Failure);
    let (b, cb) = done(Failure);
    let (c, cc) = done(Success);
    let (d, cd) = done(Success);
    let tree = sel(vec![a, b, c, d]);
    assert_eq!(run(&tree.task_production).0, Success);
    let starts: Vec<usize> = [&ca, &cb, &cc, &cd].iter().map(|l| l.starts.get()).collect();
    assert_eq!(starts, vec![1, 1, 1, 0]);
}

#[test]
fn selector_fails_when_all_fail() {
    let (a, _) = done(Failure);
    let (b, _) = leaf(vec![Pending, Ready(Failure)]);
    assert_eq!(run(&sel(vec![a, b]).task_production).0, Failure);
}

#[test]
fn selector_passes_over_optional_child() {
    let (a, ca) = done(Success);
    let (b, cb) = done(Failure);
    let tree = sel(vec![dec_continue(cond(true), a), b]);
    // The optional child succeeded, yet the selector went on to the next one.
    assert_eq!(run(&tree.task_production).0, Failure);
    assert_eq!((ca.starts.get(), cb.starts.get()), (1, 1));
}

#[test]
fn selector_optional_child_counts_by_name() {
    let (a, _) = done(Success);
    let name = DecoratorType::DecoratorContinue.node_name();
    let mut s = PrioritySelector::new(vec![Composite::new(name, Def::Leaf(leaf(vec![Ready(Success)]).1)), a]);
    assert_eq!(s.resume(), Step::Start(0));
    assert_eq!(s.on_child(Ready(Success)), Step::Reschedule);
    assert_eq!(s.resume(), Step::Start(1));
    assert_eq!(s.on_child(Ready(Success)), Step::Done(Success));
}

#[test]
fn decorator_false_never_starts_child() {
    let (a, ca) = done(Success);
    let tree = node("Decorator", Decorator::new(cond(false), a));
    assert_eq!(run(&tree.task_production), (Failure, 1));
    assert_eq!(ca.starts.get(), 0);
}

#[test]
fn decorator_true_passes_outcome_through() {
    for status in [Success, Failure] {
        let (a, ca) = leaf(vec![Pending, Ready(status)]);
        let tree = node("Decorator", Decorator::new(cond(true), a));
        assert_eq!(run(&tree.task_production).0, status);
        assert_eq!(ca.starts.get(), 1);
    }
}

#[test]
fn decorator_reads_condition_once() {
    let reads = Rc::new(Cell::new(0usize));
    let counter = reads.clone();
    let c: Cond = Rc::new(move || {
        counter.set(counter.get() + 1);
        counter.get() == 1
    });
    let (a, _) = leaf(vec![Pending, Pending, Ready(Success)]);
    let tree = node("Decorator", Decorator::new(c, a));
    assert_eq!(run(&tree.task_production).0, Success);
    assert_eq!(reads.get(), 1);
}

#[test]
fn decorator_continue_always_succeeds() {
    for holds in [false, true] {
        for status in [Success, Failure] {
            let (a, ca) = leaf(vec![Pending, Ready(status)]);
            let tree = dec_continue(cond(holds), a);
            assert_eq!(run(&tree.task_production).0, Success);
            assert_eq!(ca.starts.get(), if holds { 1 } else { 0 });
        }
    }
}

#[test]
fn inverter_flips_outcome() {
    for status in [Success, Failure] {
        let (a, _) = leaf(vec![Pending, Ready(status)]);
        let tree = node("Inverter", Inverter::new(a));
        assert_eq!(run(&tree.task_production).0, status.invert());
    }
    assert_eq!(Success.invert(), Failure);
    assert_eq!(Failure.invert(), Success);
}

#[test]
fn until_success_retries_failures() {
    let (a, ca) = leaf_runs(vec![
        vec![Ready(Failure)],
        vec![Pending, Ready(Failure)],
        vec![Ready(Success)],
    ]);
    let tree = node("UntilSuccess", UntilSuccess::new(a));
    assert_eq!(run(&tree.task_production).0, Success);
    assert_eq!(ca.starts.get(), 3);
}

#[test]
fn until_failure_retries_successes() {
    let (a, ca) = leaf_runs(vec![
        vec![Ready(Success)],
        vec![Pending, Ready(Success)],
        vec![Ready(Failure)],
    ]);
    let tree = node("UntilFailure", UntilFailure::new(a));
    assert_eq!(run(&tree.task_production).0, Failure);
    assert_eq!(ca.starts.get(), 3);
}

#[test]
fn interrupt_abandons_suspended_child() {
    let flag = Rc::new(Cell::new(true));
    let seen = flag.clone();
    let c: Cond = Rc::new(move || seen.get());
    let (a, ca) = leaf(vec![Pending]);
    let mut m = InterruptAction::new(c, a);
    let mut task = Task::Node(Box::new(m.clone()), None);
    assert_eq!(poll(&mut task), Pending);
    assert_eq!(poll(&mut task), Pending);
    flag.set(false);
    assert_eq!(poll(&mut task), Ready(Failure));
    assert_eq!((ca.starts.get(), ca.abandoned.get()), (1, 1));
    // Step by step: a suspended child has the condition checked.
    assert_eq!(m.resume(), Step::Start(0));
    assert_eq!(m.on_child(Pending), Step::CheckCondition);
    assert_eq!(m.on_condition(true), Step::Reschedule);
    assert_eq!(m.resume(), Step::PollChild);
    assert_eq!(m.on_child(Pending), Step::CheckCondition);
    assert_eq!(m.on_condition(false), Step::Done(Failure));
}

#[test]
fn interrupt_keeps_natural_outcome() {
    for status in [Success, Failure] {
        let (a, ca) = leaf(vec![Pending, Ready(status)]);
        let tree = node("InterruptAction", InterruptAction::new(cond(true), a));
        assert_eq!(run(&tree.task_production).0, status);
        assert_eq!(ca.abandoned.get(), 0);
        // The condition is false by now, but the child has already finished.
        let mut m = InterruptAction::new(cond(false), done(status).0);
        assert_eq!(m.resume(), Step::Start(0));
        assert_eq!(m.on_child(Ready(status)), Step::Done(status));
    }
}

#[test]
fn factory_runs_are_independent() {
    let (a, _) = done(Success);
    let (b, _) = leaf(vec![Pending, Ready(Success)]);
    let tree = seq(vec![a, b]);
    let mut first = start(&tree.task_production);
    assert_eq!(poll(&mut first), Pending);
    let mut second = start(&tree.task_production);
    assert_eq!(poll(&mut second), Pending);
    assert_eq!(poll(&mut first), Pending);
    assert_eq!(poll(&mut first), Ready(Success));
    assert_eq!(poll(&mut second), Pending);
    assert_eq!(poll(&mut second), Ready(Success));
    assert_eq!(run(&tree.task_production).0, Success);
}

#[test]
fn clone_starts_a_fresh_run() {
    let (a, _) = done(Success);
    let (b, _) = done(Success);
    let mut s = Sequence::new(vec![a, b]);
    assert_eq!(s.resume(), Step::Start(0));
    assert_eq!(s.on_child(Ready(Success)), Step::Reschedule);
    let mut fresh = s.clone();
    assert_eq!(s.resume(), Step::Start(1));
    assert_eq!(fresh.resume(), Step::Start(0));
}

#[test]
fn sequence_reschedules_after_each_success() {
    let childs: Vec<Composite<Def>> = (0..4).map(|_| done(Success).0).collect();
    let mut s = Sequence::new(childs);
    for i in 0..3 {
        assert_eq!(s.resume(), Step::Start(i));
        assert_eq!(s.on_child(Ready(Success)), Step::Reschedule);
    }
    assert_eq!(s.resume(), Step::Start(3));
    assert_eq!(s.on_child(Ready(Success)), Step::Done(Success));
}

#[test]
fn runs_finish_in_bounded_resumes() {
    let childs: Vec<Composite<Def>> = (0..5).map(|_| done(Success).0).collect();
    assert_eq!(run(&seq(childs).task_production), (Success, 5));
    let childs: Vec<Composite<Def>> = (0..5).map(|_| done(Failure).0).collect();
    assert_eq!(run(&sel(childs).task_production), (Failure, 5));
    let (a, _) = leaf_runs(vec![vec![Ready(Failure)], vec![Ready(Failure)], vec![Ready(Success)]]);
    assert_eq!(run(&node("UntilSuccess", UntilSuccess::new(a)).task_production), (Success, 3));
}

#[test]
fn pending_child_waits() {
    let (a, _) = leaf(vec![Pending]);
    let mut s = Sequence::new(vec![a]);
    assert_eq!(s.resume(), Step::Start(0));
    assert_eq!(s.on_child(Pending), Step::Wait);
    assert_eq!(s.resume(), Step::PollChild);
    let mut u = UntilFailure::new(done(Success).0);
    assert_eq!(u.resume(), Step::Start(0));
    assert_eq!(u.on_child(Pending), Step::Wait);
    assert_eq!(u.resume(), Step::PollChild);
    assert_eq!(u.on_child(Ready(Success)), Step::Reschedule);
    assert_eq!(u.resume(), Step::Start(0));
}

#[test]
fn node_names() {
    assert_eq!(GroupBehaviorType::Sequence.node_name(), "Sequence");
    assert_eq!(GroupBehaviorType::PrioritySelector.node_name(), "PrioritySelector");
    assert_eq!(DecoratorType::Decorator.node_name(), "Decorator");
    assert_eq!(DecoratorType::DecoratorContinue.node_name(), "DecoratorContinue");
    assert_eq!(Composite::new_action(0u8).name, "Action");
    assert_eq!(Composite::new("Named".to_string(), 0u8).name, "Named");
}

#[test]
fn default_status_is_failure() {
    assert_eq!(RunStatus::default(), Failure);
}
