use vstd::prelude::*;
use vstd::string::StringExecFns;
use crate::decimal::{dec_str, u64_to_dec, i64_to_dec};

verus! {

/// The closed set of supported arithmetic operators.
#[derive(Clone, Copy, PartialEq, Eq, Structural, Debug)]
pub enum OperationType {
    Addition,
    Subtraction,
    Multiplication,
}

impl OperationType {
    /// The display symbol of this kind, as a sequence of characters.
    pub open spec fn spec_sign(self) -> Seq<char> {
        match self {
            OperationType::Addition => seq!['+'],
            OperationType::Subtraction => seq!['-'],
            OperationType::Multiplication => seq!['*'],
        }
    }

    /// The exact mathematical result of applying this kind to `x` and `y`.
    pub open spec fn spec_result(self, x: int, y: int) -> int {
        match self {
            OperationType::Addition => x + y,
            OperationType::Subtraction => x - y,
            OperationType::Multiplication => x * y,
        }
    }

    /// Checked evaluation: the mathematical result when it is representable
    /// as an `i64`, and `None` when it would overflow.
    pub open spec fn spec_eval(self, x: i64, y: i64) -> Option<i64> {
        if i64::MIN <= self.spec_result(x as int, y as int) <= i64::MAX {
            Some(self.spec_result(x as int, y as int) as i64)
        } else {
            None
        }
    }

    /// The string representation of the operation sign:
    /// addition `"+"`, subtraction `"-"`, multiplication `"*"`.
    pub fn get_sign(&self) -> (r: &str)
        ensures
            r@ == self.spec_sign(),
    {
        match self {
            OperationType::Addition => {
                proof {
                    reveal_strlit("+");
                    assert("+"@ =~= seq!['+']);
                }
                "+"
            },
            OperationType::Subtraction => {
                proof {
                    reveal_strlit("-");
                    assert("-"@ =~= seq!['-']);
                }
                "-"
            },
            OperationType::Multiplication => {
                proof {
                    reveal_strlit("*");
                    assert("*"@ =~= seq!['*']);
                }
                "*"
            },
        }
    }

    /// Performs the operation on two `i64` numbers with overflow protection:
    /// `Some(result)` exactly when the mathematical result is representable,
    /// `None` on overflow.
    pub fn perform(&self, x: i64, y: i64) -> (r: Option<i64>)
        ensures
            r == self.spec_eval(x, y),
    {
        match self {
            OperationType::Addition => x.checked_add(y),
            OperationType::Subtraction => x.checked_sub(y),
            OperationType::Multiplication => x.checked_mul(y),
        }
    }
}

/// A single recorded arithmetic request: two operands and the kind applied
/// to them.
#[derive(Clone, Copy, PartialEq, Eq, Structural, Debug)]
pub struct Operation {
    pub first_num: i64,
    pub second_num: i64,
    pub operation_type: OperationType,
}

impl Operation {
    /// The exact mathematical result of this operation.
    pub open spec fn spec_result(self) -> int {
        self.operation_type.spec_result(self.first_num as int, self.second_num as int)
    }

    /// Whether this operation's result is representable as an `i64`; every
    /// operation stored in a history satisfies this.
    pub open spec fn in_range(self) -> bool {
        i64::MIN <= self.spec_result() <= i64::MAX
    }

    /// Creates a new operation with the given operands and kind.
    pub fn new(first_num: i64, second_num: i64, operation_type: OperationType) -> (r: Self)
        ensures
            r == (Operation { first_num, second_num, operation_type }),
    {
        Operation { first_num, second_num, operation_type }
    }
}

/// Whether every operation of `h` evaluates without overflow: the invariant
/// of a calculator's history, which stores only operations that have already
/// evaluated successfully.
pub open spec fn history_wf(h: Seq<Operation>) -> bool {
    forall|i: int| 0 <= i < h.len() ==> #[trigger] h[i].in_range()
}

/// The rendered line for the history entry `op` at position `index`, showing
/// `shown` as its result:
/// `"<index>: <left> <symbol> <right> = <shown>"` and a line break.
pub open spec fn line_shown(index: int, op: Operation, shown: int) -> Seq<char> {
    dec_str(index) + seq![':', ' '] + dec_str(op.first_num as int) + seq![' ']
        + op.operation_type.spec_sign() + seq![' '] + dec_str(op.second_num as int)
        + seq![' ', '=', ' '] + dec_str(shown) + seq!['\n']
}

/// The rendered line for the history entry `op` at position `index`: the
/// result shown is obtained by re-evaluating the stored operation.
pub open spec fn line_of(index: int, op: Operation) -> Seq<char> {
    line_shown(index, op, op.spec_result())
}

/// The full rendering of a history: one line per entry, in insertion order.
pub open spec fn render(h: Seq<Operation>) -> Seq<char>
    decreases h.len(),
{
    if h.len() == 0 {
        Seq::empty()
    } else {
        render(h.drop_last()) + line_of(h.len() - 1, h.last())
    }
}

/// A calculator: an append-only history of the operations that evaluated
/// successfully, in the order they completed.
pub struct Calculator {
    pub history: Vec<Operation>,
}

impl View for Calculator {
    type V = Seq<Operation>;

    open spec fn view(&self) -> Seq<Operation> {
        self.history@
    }
}

impl Calculator {
    /// The calculator's invariant: the history holds only operations whose
    /// evaluation succeeds.
    pub open spec fn wf(self) -> bool {
        history_wf(self@)
    }

    /// Creates a new calculator with an empty history.
    pub fn new() -> (r: Self)
        ensures
            r@ =~= Seq::<Operation>::empty(),
            r.wf(),
    {
        Calculator { history: Vec::new() }
    }

    /// Performs addition and stores the operation in history on success:
    /// `Some(x + y)` and one new history entry exactly when the sum is
    /// representable, `None` and an unchanged history on overflow.
    pub fn addition(&mut self, x: i64, y: i64) -> (r: Option<i64>)
        requires
            old(self).wf(),
        ensures
            final(self).wf(),
            r == OperationType::Addition.spec_eval(x, y),
            r is Some ==> final(self)@ =~= old(self)@.push(
                Operation { first_num: x, second_num: y, operation_type: OperationType::Addition },
            ),
            r is None ==> final(self)@ == old(self)@,
    {
        match OperationType::Addition.perform(x, y) {
            Some(result) => {
                let operation = Operation::new(x, y, OperationType::Addition);
                self.history.push(operation);
                Some(result)
            },
            None => None,
        }
    }

    /// Performs subtraction and stores the operation in history on success:
    /// `Some(x - y)` and one new history entry exactly when the difference is
    /// representable, `None` and an unchanged history on overflow.
    pub fn subtraction(&mut self, x: i64, y: i64) -> (r: Option<i64>)
        requires
            old(self).wf(),
        ensures
            final(self).wf(),
            r == OperationType::Subtraction.spec_eval(x, y),
            r is Some ==> final(self)@ =~= old(self)@.push(
                Operation {
                    first_num: x,
                    second_num: y,
                    operation_type: OperationType::Subtraction,
                },
            ),
            r is None ==> final(self)@ == old(self)@,
    {
        match OperationType::Subtraction.perform(x, y) {
            Some(result) => {
                let operation = Operation::new(x, y, OperationType::Subtraction);
                self.history.push(operation);
                Some(result)
            },
            None => None,
        }
    }

    /// Performs multiplication and stores the operation in history on
    /// success: `Some(x * y)` and one new history entry exactly when the
    /// product is representable, `None` and an unchanged history on overflow.
    pub fn multiplication(&mut self, x: i64, y: i64) -> (r: Option<i64>)
        requires
            old(self).wf(),
        ensures
            final(self).wf(),
            r == OperationType::Multiplication.spec_eval(x, y),
            r is Some ==> final(self)@ =~= old(self)@.push(
                Operation {
                    first_num: x,
                    second_num: y,
                    operation_type: OperationType::Multiplication,
                },
            ),
            r is None ==> final(self)@ == old(self)@,
    {
        match OperationType::Multiplication.perform(x, y) {
            Some(result) => {
                let operation = Operation::new(x, y, OperationType::Multiplication);
                self.history.push(operation);
                Some(result)
            },
            None => None,
        }
    }

    /// Formats the whole history, one line per entry in insertion order,
    /// each as `"<index>: <left> <sign> <right> = <result>"` with a line
    /// break, where the result is obtained by re-evaluating the stored
    /// operation. An empty history yields the empty string.
    pub fn show_history(&self) -> (r: String)
        requires
            self.wf(),
        ensures
            r@ == render(self@),
    {
        let mut history_string = String::new();
        let mut index: usize = 0;
        while index < self.history.len()
            invariant
                self.wf(),
                index <= self.history.len(),
                history_string@ == render(self@.subrange(0, index as int)),
            decreases self.history.len() - index,
        {
            let operation = self.history[index];
            let evaluated = operation.operation_type.perform(
                operation.first_num,
                operation.second_num,
            );
            proof {
                assert(self@[index as int].in_range());
            }
            let result = evaluated.unwrap();

            let mut line = u64_to_dec(index as u64);
            proof {
                reveal_strlit(": ");
                reveal_strlit(" ");
                reveal_strlit(" = ");
                reveal_strlit("\n");
                assert(": "@ =~= seq![':', ' ']);
                assert(" "@ =~= seq![' ']);
                assert(" = "@ =~= seq![' ', '=', ' ']);
                assert("\n"@ =~= seq!['\n']);
            }
            line.append(": ");
            let first = i64_to_dec(operation.first_num);
            line.append(first.as_str());
            line.append(" ");
            line.append(operation.operation_type.get_sign());
            line.append(" ");
            let second = i64_to_dec(operation.second_num);
            line.append(second.as_str());
            line.append(" = ");
            let shown = i64_to_dec(result);
            line.append(shown.as_str());
            line.append("\n");
            proof {
                assert(line@ =~= line_of(index as int, self@[index as int]));
                assert(self@.subrange(0, index + 1 as int).drop_last() =~= self@.subrange(
                    0,
                    index as int,
                ));
                assert(self@.subrange(0, index + 1 as int).last() == self@[index as int]);
            }
            history_string.append(line.as_str());
            index += 1;
        }
        proof {
            assert(self@.subrange(0, self@.len() as int) =~= self@);
        }
        history_string
    }

    /// Repeats the operation stored at `operation_index`: on a valid index
    /// whose stored operation re-evaluates successfully, appends an entry
    /// equal in content to it and returns the result; on an out-of-range
    /// index returns `None` and leaves the history unchanged.
    pub fn repeat(&mut self, operation_index: usize) -> (r: Option<i64>)
        requires
            old(self).wf(),
        ensures
            final(self).wf(),
            operation_index < old(self)@.len() ==> {
                let op = old(self)@[operation_index as int];
                r == Some(op.spec_result() as i64) && final(self)@ =~= old(self)@.push(op)
            },
            operation_index >= old(self)@.len() ==> r is None && final(self)@ == old(self)@,
    {
        if operation_index < self.history.len() {
            let operation = self.history[operation_index];
            proof {
                assert(old(self)@[operation_index as int].in_range());
            }
            match operation.operation_type.perform(operation.first_num, operation.second_num) {
                Some(result) => {
                    self.history.push(operation);
                    Some(result)
                },
                None => None,
            }
        } else {
            None
        }
    }

    /// Removes all operations from history; every previously valid index
    /// becomes invalid.
    pub fn clear_history(&mut self)
        ensures
            final(self)@ =~= Seq::<Operation>::empty(),
            final(self).wf(),
    {
        self.history.clear();
    }
}

/// Law: once the history is empty — as it is after `clear_history` — every
/// rendering of it is the empty string and no index addresses an entry, so
/// any subsequent replay reports an invalid index.
pub proof fn lemma_cleared_history_is_blank()
    ensures
        render(Seq::<Operation>::empty()) == Seq::<char>::empty(),
        Seq::<Operation>::empty().len() == 0,
{
}

/// Law: the rendering grows line by line — the rendering of the first
/// `i + 1` entries of a history is the rendering of the first `i` entries
/// followed by the line for entry `i`, so each entry's line stands in the
/// full rendering at its position.
pub proof fn lemma_render_grows_line_by_line(h: Seq<Operation>, i: int)
    requires
        0 <= i < h.len(),
    ensures
        render(h.subrange(0, i + 1)) == render(h.subrange(0, i)) + line_of(i, h[i]),
{
    assert(h.subrange(0, i + 1).drop_last() =~= h.subrange(0, i));
    assert(h.subrange(0, i + 1).last() == h[i]);
}

/// Law: re-evaluating any stored history entry's operands and kind reproduces
/// the result shown for that entry in the rendering — on a well-formed
/// history, checked evaluation of entry `i` succeeds with its exact
/// mathematical result, and the rendered line for entry `i` shows that same
/// value.
pub proof fn lemma_stored_result_round_trip(h: Seq<Operation>, i: int)
    requires
        history_wf(h),
        0 <= i < h.len(),
    ensures
        h[i].operation_type.spec_eval(h[i].first_num, h[i].second_num) == Some(
            h[i].spec_result() as i64,
        ),
        line_of(i, h[i]) == line_shown(i, h[i], h[i].spec_result() as i64 as int),
{
    assert(h[i].in_range());
}

} // verus!
