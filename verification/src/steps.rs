//! Step progress: naming and numbering the nested phases of the work, to
//! decorate the log.
//!
//! The phases that are under way form a stack: `start` pushes the first of a
//! series of steps, `next` replaces the step on top by its successor, and
//! `end` pops the last one. The number of steps of a series is told by the
//! type of its handle, so that a series cannot be ended early or continued
//! beyond its end. A handle remembers how deep its step lies, and a step is
//! ended only while it is the innermost one: steps end in the reverse of the
//! order in which they began.

use crate::text::{decimal, push_decimal};
use std::marker::PhantomData;
use vstd::prelude::*;
use vstd::string::*;

verus! {

/// One phase that is under way.
#[derive(Clone, Copy, Debug, PartialEq, Eq, Structural)]
pub struct Step {
    /// Position of the step in its series, counted from 1.
    pub number: usize,
    /// Number of steps of the series.
    pub total: usize,
    /// Whether a log line has shown this step since it began.
    pub logged: bool,
}

/// The phases that are under way, the outermost first.
pub struct StepStack {
    pub steps: Vec<Step>,
}

/// A count that is told by a type: `()` is zero and `One<T>` is one more
/// than `T`.
pub trait Number {
    /// The count.
    spec fn count() -> nat;

    /// The count, or the largest number of the machine if the count is
    /// larger still.
    fn len() -> (n: usize)
        ensures
            n == clip(Self::count() as int),
    ;
}

/// One more than `T`.
pub struct One<T>(PhantomData<T>);

/// A count as the machine holds it: counts beyond its largest number are
/// held as that number.
pub open spec fn clip(count: int) -> usize {
    if count > usize::MAX {
        usize::MAX
    } else {
        count as usize
    }
}

impl Number for () {
    open spec fn count() -> nat {
        0
    }

    fn len() -> (n: usize) {
        0
    }
}

impl<T: Number> Number for One<T> {
    open spec fn count() -> nat {
        T::count() + 1
    }

    fn len() -> (n: usize) {
        T::len().saturating_add(1)
    }
}

/// The step on top of a series: `Preceding` counts the steps of the series
/// that are done, `Remaining` those that are still to come.
pub struct StepHandle<Preceding, Remaining> {
    marker: PhantomData<(Preceding, Remaining)>,
    depth: usize,
}

/// A step that was begun with a number known only when the program runs.
pub struct OpenStep {
    depth: usize,
}

/// The step of a series of which `preceding` steps are done and `remaining`
/// are to come.
pub open spec fn step_of(preceding: nat, remaining: nat) -> Step {
    Step {
        number: clip(clip(preceding as int) + 1),
        total: clip(clip(clip(preceding as int) + 1) + clip(remaining as int)),
        logged: false,
    }
}

impl StepStack {
    /// The phases that are under way, the outermost first.
    pub open spec fn view(&self) -> Seq<Step> {
        self.steps@
    }

    /// A stack without a phase.
    pub fn new() -> (stack: StepStack)
        ensures
            stack@ == Seq::<Step>::empty(),
    {
        StepStack { steps: Vec::new() }
    }

    /// Number of phases that are under way.
    pub fn depth(&self) -> (depth: usize)
        ensures
            depth == self@.len(),
    {
        self.steps.len()
    }
}

/// The stack after a series began with `first`.
pub open spec fn started(stack: Seq<Step>, first: Step) -> Seq<Step> {
    stack.push(first)
}

/// The stack after the step on top was replaced by `successor`.
pub open spec fn advanced(stack: Seq<Step>, successor: Step) -> Seq<Step> {
    ended(stack).push(successor)
}

/// The stack after the step on top ended; an empty stack stays empty.
pub open spec fn ended(stack: Seq<Step>) -> Seq<Step> {
    if stack.len() == 0 {
        stack
    } else {
        stack.drop_last()
    }
}

/// The step that is under way, if any: the innermost one.
pub fn current(stack: &StepStack) -> (step: Option<Step>)
    ensures
        step == if stack@.len() == 0 {
            None
        } else {
            Some(stack@.last())
        },
{
    let n = stack.steps.len();
    if n == 0 {
        None
    } else {
        Some(stack.steps[n - 1])
    }
}

impl<Preceding, Remaining> StepHandle<Preceding, Remaining> {
    /// Number of steps that were under way when this one had begun, itself
    /// included: the depth of the stack while this step is the innermost.
    pub closed spec fn depth(&self) -> nat {
        self.depth as nat
    }

    /// Tells whether this step is the innermost one: whether every step
    /// that began after it has ended.
    pub fn is_current(&self, stack: &StepStack) -> (r: bool)
        ensures
            r == (stack@.len() == self.depth()),
    {
        stack.steps.len() == self.depth
    }
}

impl OpenStep {
    /// Number of steps that were under way when this one had begun, itself
    /// included.
    pub closed spec fn depth(&self) -> nat {
        self.depth as nat
    }

    /// Tells whether this step is the innermost one.
    pub fn is_current(&self, stack: &StepStack) -> (r: bool)
        ensures
            r == (stack@.len() == self.depth()),
    {
        stack.steps.len() == self.depth
    }
}

impl<Preceding: Number, Remaining: Number> StepHandle<Preceding, Remaining> {
    /// Pushes the step that this handle stands for.
    pub fn new(stack: &mut StepStack) -> (handle: Self)
        ensures
            final(stack)@ == started(old(stack)@, step_of(Preceding::count(), Remaining::count())),
            handle.depth() == final(stack)@.len(),
    {
        let number = Preceding::len().saturating_add(1);
        let total = number.saturating_add(Remaining::len());
        stack.steps.push(Step { number, total, logged: false });
        StepHandle { marker: PhantomData, depth: stack.steps.len() }
    }
}

impl<Preceding: Number, Remaining: Number> StepHandle<Preceding, One<Remaining>> {
    /// Ends this step and begins the one that follows it in the series.
    ///
    /// A step is ended only as the innermost one: every step that began
    /// after it must have ended.
    pub fn next(self, stack: &mut StepStack) -> (handle: StepHandle<One<Preceding>, Remaining>)
        requires
            old(stack)@.len() == self.depth(),
        ensures
            final(stack)@ == advanced(
                old(stack)@,
                step_of(Preceding::count() + 1, Remaining::count()),
            ),
            handle.depth() == final(stack)@.len(),
    {
        stack.steps.pop();
        StepHandle::new(stack)
    }
}

/// Begins a series of steps: its first step is pushed.
pub fn start<Remaining: Number>(stack: &mut StepStack) -> (handle: StepHandle<(), Remaining>)
    ensures
        final(stack)@ == started(old(stack)@, step_of(0, Remaining::count())),
        handle.depth() == final(stack)@.len(),
{
    StepHandle::new(stack)
}

/// Ends a series of steps, which only its last step can do: that step is
/// popped. It is ended only as the innermost one: every step that began
/// after it must have ended.
pub fn end<Preceding>(handle: StepHandle<Preceding, ()>, stack: &mut StepStack)
    requires
        old(stack)@.len() == handle.depth(),
    ensures
        final(stack)@ == ended(old(stack)@),
{
    stack.steps.pop();
}

/// Begins step `number` of a series of `total` steps whose length is known
/// only when the program runs: the step is pushed.
pub fn enter(stack: &mut StepStack, number: usize, total: usize) -> (step: OpenStep)
    ensures
        final(stack)@ == started(old(stack)@, Step { number, total, logged: false }),
        step.depth() == final(stack)@.len(),
{
    stack.steps.push(Step { number, total, logged: false });
    OpenStep { depth: stack.steps.len() }
}

/// Ends a step that was begun with `enter`: it is popped. It is ended only
/// as the innermost one: every step that began after it must have ended.
pub fn leave(stack: &mut StepStack, step: OpenStep)
    requires
        old(stack)@.len() == step.depth(),
    ensures
        final(stack)@ == ended(old(stack)@),
{
    stack.steps.pop();
}

/// One move on the stack of steps.
pub enum Move {
    /// A series begins with this step.
    Start(Step),
    /// The step on top is replaced by this one.
    Next(Step),
    /// The step on top ends.
    End,
}

/// The stack after `moves`, made one after the other.
pub open spec fn after_moves(stack: Seq<Step>, moves: Seq<Move>) -> Seq<Step>
    decreases moves.len(),
{
    if moves.len() == 0 {
        stack
    } else {
        let before = after_moves(stack, moves.drop_last());
        match moves.last() {
            Move::Start(first) => started(before, first),
            Move::Next(successor) => advanced(before, successor),
            Move::End => ended(before),
        }
    }
}

/// Number of series that `moves` began and did not end.
pub open spec fn open_series(moves: Seq<Move>) -> int
    decreases moves.len(),
{
    if moves.len() == 0 {
        0
    } else {
        open_series(moves.drop_last()) + match moves.last() {
            Move::Start(_) => 1int,
            Move::Next(_) => 0int,
            Move::End => -1int,
        }
    }
}

/// Whether `moves` only touch series that they began themselves: a step is
/// replaced or ended only while such a series is open.
pub open spec fn nested(moves: Seq<Move>) -> bool
    decreases moves.len(),
{
    moves.len() == 0 || (nested(moves.drop_last()) && match moves.last() {
        Move::Start(_) => true,
        Move::Next(_) => open_series(moves.drop_last()) >= 1,
        Move::End => open_series(moves.drop_last()) >= 1,
    })
}

/// Moves that only touch their own series leave the steps below untouched.
pub proof fn lemma_nested_moves_keep_outer_steps(stack: Seq<Step>, moves: Seq<Move>)
    requires
        nested(moves),
    ensures
        open_series(moves) >= 0,
        after_moves(stack, moves).len() == stack.len() + open_series(moves),
        after_moves(stack, moves).take(stack.len() as int) == stack,
    decreases moves.len(),
{
    if moves.len() == 0 {
        assert(stack.take(stack.len() as int) =~= stack);
    } else {
        lemma_nested_moves_keep_outer_steps(stack, moves.drop_last());
        let before = after_moves(stack, moves.drop_last());
        let after = after_moves(stack, moves);
        assert(after.take(stack.len() as int) =~= before.take(stack.len() as int));
    }
}

/// After balanced calls of `start`, `next` and `end`, in any nesting, the
/// stack of steps is the one from before the outermost `start`.
pub proof fn lemma_balanced_moves_restore_stack(stack: Seq<Step>, moves: Seq<Move>)
    requires
        nested(moves),
        open_series(moves) == 0,
    ensures
        after_moves(stack, moves) == stack,
{
    lemma_nested_moves_keep_outer_steps(stack, moves);
    assert(after_moves(stack, moves).take(stack.len() as int) =~= after_moves(stack, moves));
}

/// `n` blanks.
pub open spec fn blanks(n: nat) -> Seq<char> {
    Seq::new(n, |i: int| ' ')
}

/// A number in decimal, with blanks before it to fill `width` places.
pub open spec fn padded(number: nat, width: nat) -> Seq<char> {
    let digits = decimal(number);
    if digits.len() >= width {
        digits
    } else {
        blanks((width - digits.len()) as nat) + digits
    }
}

/// The log prefix of one step: its number and the total where `visible`,
/// blanks of the same width else.
pub open spec fn step_prefix(step: Step, visible: bool) -> Seq<char> {
    let width = decimal(step.total as nat).len();
    if visible {
        "["@ + padded(step.number as nat, width) + "/"@ + padded(step.total as nat, width) + "] "@
    } else {
        " "@ + blanks(width) + " "@ + blanks(width) + "  "@
    }
}

/// The log prefix of a stack of steps: blanks for every step but the
/// innermost, which is shown where `visible`.
pub open spec fn steps_prefix(steps: Seq<Step>, visible: bool) -> Seq<char>
    decreases steps.len(),
{
    if steps.len() == 0 {
        Seq::empty()
    } else {
        steps_prefix(steps.drop_last(), false) + step_prefix(steps.last(), visible)
    }
}

/// The log prefix of a line: nothing while no step is under way; else the
/// innermost step is shown if no line has shown it yet.
pub open spec fn log_prefix_text(steps: Seq<Step>) -> Seq<char> {
    if steps.len() == 0 {
        Seq::empty()
    } else {
        steps_prefix(steps, !steps.last().logged)
    }
}

/// The steps once a line has shown them.
pub open spec fn shown(steps: Seq<Step>) -> Seq<Step> {
    Seq::new(steps.len(), |i: int| Step { logged: true, ..steps[i] })
}

/// Appends `n` blanks.
fn push_blanks(out: &mut String, n: usize)
    ensures
        final(out)@ == old(out)@ + blanks(n as nat),
{
    let mut i: usize = 0;
    assert(old(out)@ + blanks(0) =~= old(out)@);
    while i < n
        invariant
            i <= n,
            out@ == old(out)@ + blanks(i as nat),
        decreases n - i,
    {
        out.append(" ");
        proof {
            reveal_strlit(" ");
            assert(old(out)@ + blanks(i as nat) + " "@ =~= old(out)@ + blanks((i + 1) as nat));
        }
        i += 1;
    }
}

/// Number of digits of `n`.
fn digits_of(n: usize) -> (count: usize)
    ensures
        count == decimal(n as nat).len(),
        1 <= count <= 20,
{
    let mut count: usize = 1;
    let mut rest: usize = n;
    proof {
        lemma_decimal_length_bound(n as nat);
    }
    while rest >= 10
        invariant
            1 <= count,
            count + decimal(rest as nat).len() == decimal(n as nat).len() + 1,
            decimal(rest as nat).len() >= 1,
            decimal(n as nat).len() <= 20,
        decreases rest,
    {
        assert(decimal(rest as nat).len() == decimal((rest / 10) as nat).len() + 1);
        rest = rest / 10;
        count += 1;
    }
    count
}

/// A number that the machine can hold has at most twenty digits.
proof fn lemma_decimal_length_bound(n: nat)
    requires
        n <= u64::MAX,
    ensures
        1 <= decimal(n).len() <= 20,
{
    lemma_decimal_length_grows(n, u64::MAX as nat);
    assert(decimal(u64::MAX as nat).len() == 20) by {
        reveal_with_fuel(decimal, 21);
    }
}

/// Appends `number`, with blanks before it to fill `width` places.
fn push_padded(out: &mut String, number: usize, width: usize)
    ensures
        final(out)@ == old(out)@ + padded(number as nat, width as nat),
{
    let digits = digits_of(number);
    if digits < width {
        push_blanks(out, width - digits);
    }
    let ghost before = out@;
    push_decimal(out, number as u64);
    proof {
        if digits < width {
            assert(before + decimal(number as nat) =~= old(out)@ + (blanks((width - digits) as nat)
                + decimal(number as nat)));
        }
    }
}

/// Writes the prefix representing one `Step`.
pub fn write_step_prefix(out: &mut String, step: &Step, visible: bool)
    ensures
        final(out)@ == old(out)@ + step_prefix(*step, visible),
{
    let total_width = digits_of(step.total);
    if visible {
        out.append("[");
        push_padded(out, step.number, total_width);
        out.append("/");
        push_padded(out, step.total, total_width);
        out.append("] ");
        assert(out@ =~= old(out)@ + step_prefix(*step, visible));
    } else {
        out.append(" ");
        push_blanks(out, total_width);
        out.append(" ");
        push_blanks(out, total_width);
        out.append("  ");
        assert(out@ =~= old(out)@ + step_prefix(*step, visible));
    }
}

/// Writes the prefix representing all of `steps`. The outer steps are never
/// visible; the innermost one depends on `visible`.
pub fn write_steps_prefix(out: &mut String, steps: &Vec<Step>, visible: bool)
    ensures
        final(out)@ == old(out)@ + steps_prefix(steps@, visible),
{
    let n = steps.len();
    if n == 0 {
        assert(old(out)@ + steps_prefix(steps@, visible) =~= old(out)@);
        return ;
    }
    let mut i: usize = 0;
    assert(steps@.take(0) =~= Seq::<Step>::empty());
    assert(old(out)@ + steps_prefix(steps@.take(0), false) =~= old(out)@);
    while i < n - 1
        invariant
            i <= n - 1,
            n == steps.len(),
            out@ == old(out)@ + steps_prefix(steps@.take(i as int), false),
        decreases n - i,
    {
        let ghost before = out@;
        write_step_prefix(out, &steps[i], false);
        proof {
            assert(steps@.take(i + 1).drop_last() =~= steps@.take(i as int));
            assert(steps@.take(i + 1).last() == steps@[i as int]);
            assert(before + step_prefix(steps@[i as int], false) =~= old(out)@ + steps_prefix(
                steps@.take(i + 1),
                false,
            ));
        }
        i += 1;
    }
    let ghost before = out@;
    write_step_prefix(out, &steps[n - 1], visible);
    proof {
        assert(steps@.drop_last() =~= steps@.take(n - 1));
        assert(before + step_prefix(steps@[n - 1], visible) =~= old(out)@ + steps_prefix(
            steps@,
            visible,
        ));
    }
}

/// Writes the log prefix of a line and notes that the steps under way have
/// now been shown, so that the following lines only indent.
pub fn write_log_prefix(out: &mut String, stack: &mut StepStack)
    ensures
        final(out)@ == old(out)@ + log_prefix_text(old(stack)@),
        final(stack)@ == shown(old(stack)@),
{
    let n = stack.steps.len();
    if n == 0 {
        assert(old(out)@ + log_prefix_text(old(stack)@) =~= old(out)@);
        assert(stack@ =~= shown(old(stack)@));
        return ;
    }
    let visible = !stack.steps[n - 1].logged;
    write_steps_prefix(out, &stack.steps, visible);
    let mut i: usize = 0;
    while i < n
        invariant
            i <= n,
            n == stack.steps.len(),
            stack@.len() == old(stack)@.len(),
            forall|k: int| 0 <= k < i ==> stack@[k] == shown(old(stack)@)[k],
            forall|k: int| i <= k < n ==> stack@[k] == old(stack)@[k],
        decreases n - i,
    {
        let step = stack.steps[i];
        stack.steps.set(i, Step { logged: true, ..step });
        i += 1;
    }
    assert(stack@ =~= shown(old(stack)@));
}

/// The log prefix of a line, ready to be written out.
pub struct StepLogPrefix {
    text: String,
}

impl StepLogPrefix {
    /// The characters of the prefix.
    pub closed spec fn view(&self) -> Seq<char> {
        self.text@
    }

    /// The prefix as text.
    pub fn to_string(&self) -> (text: String)
        ensures
            text@ == self@,
    {
        self.text.clone()
    }
}

/// What can tell the log prefix of the next line.
pub trait StepExt {
    /// The steps under way, the outermost first.
    spec fn steps(&self) -> Seq<Step>;

    /// Takes the log prefix for one line; the steps count as shown from
    /// then on.
    fn log_prefix(&mut self) -> (prefix: StepLogPrefix)
        ensures
            prefix@ == log_prefix_text(old(self).steps()),
            final(self).steps() == shown(old(self).steps()),
    ;
}

impl StepExt for StepStack {
    open spec fn steps(&self) -> Seq<Step> {
        self@
    }

    fn log_prefix(&mut self) -> (prefix: StepLogPrefix) {
        let mut text = String::new();
        write_log_prefix(&mut text, self);
        assert(Seq::<char>::empty() + log_prefix_text(old(self)@) =~= log_prefix_text(old(self)@));
        StepLogPrefix { text }
    }
}

/// Once a line has shown the steps, the lines that follow only indent, by
/// the same width, until a step begins.
pub proof fn lemma_prefix_is_shown_once(steps: Seq<Step>)
    requires
        steps.len() > 0,
    ensures
        log_prefix_text(shown(steps)) == steps_prefix(shown(steps), false),
        shown(shown(steps)) == shown(steps),
{
    assert(shown(shown(steps)) =~= shown(steps));
}

/// A step takes the same width in the prefix whether it is shown or not.
pub proof fn lemma_step_prefix_width(step: Step, visible: bool)
    requires
        step.number <= step.total,
    ensures
        step_prefix(step, visible).len() == 2 * decimal(step.total as nat).len() + 4,
{
    reveal_strlit("[");
    reveal_strlit("/");
    reveal_strlit("] ");
    reveal_strlit(" ");
    reveal_strlit("  ");
    lemma_decimal_length_grows(step.number as nat, step.total as nat);
}

/// A larger number has at least as many digits.
pub proof fn lemma_decimal_length_grows(a: nat, b: nat)
    requires
        a <= b,
    ensures
        decimal(a).len() <= decimal(b).len(),
    decreases b,
{
    if b >= 10 && a >= 10 {
        lemma_decimal_length_grows(a / 10, b / 10);
    }
}

} // verus!
