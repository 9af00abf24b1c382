//! The code generator: each semantic command is lowered to blocks of Hack
//! commands, and `generate` folds a whole translation unit, threading the
//! context (enclosing function, comparison-label counter, return-site
//! counter). The spec function `gen_cmds` is the mathematical model of the
//! fold; `generate` is proved to agree with it on every input, so the
//! generated sequence is a pure function of the commands and module name.

pub mod arithmetic;
pub mod branch;
pub mod function_call;
pub mod memory_access;

use crate::assembler_code::flatten_blocks;
use crate::hack;
use crate::labels;
use crate::semantics;
use crate::vm;
use vstd::prelude::*;

verus! {

/// Why a translation unit is rejected.
#[derive(Debug, Clone, Copy, PartialEq, Eq)]
pub enum TranslateError {
    /// `pop constant` has no target location.
    PopConstant,
    /// A `pointer` access with an index other than 0 or 1.
    PointerIndexOutOfRange,
    /// A `temp` access with an index above 7.
    TempIndexOutOfRange,
    /// A constant or segment index above the 15-bit address space.
    ConstantOutOfRange,
    /// A `call` whose argument count cannot be encoded in an A-instruction.
    ArgsCountOutOfRange,
    /// A `return` outside any function.
    ReturnOutsideFunction,
    /// A `label`, `goto` or `if-goto` outside any function.
    LabelOutsideFunction,
}

/// The generator context of one translation unit: the enclosing function,
/// if any, and the two counters behind generated label names.
pub struct ContextV {
    pub function: Option<Seq<char>>,
    pub comp_counter: nat,
    pub return_site_counter: nat,
}

/// The context at the start of a translation unit.
pub open spec fn init_context() -> ContextV {
    ContextV { function: None, comp_counter: 0, return_site_counter: 0 }
}

/// The function-name part of comparison label paths: the enclosing
/// function, or empty before the first `function` command.
pub open spec fn function_name_seq(function: Option<Seq<char>>) -> Seq<char> {
    match function {
        Some(f) => f,
        None => ""@,
    }
}

/// The caller name of a return-site label: the enclosing function, or the
/// module name before the first `function` command.
pub open spec fn caller_name_seq(function: Option<Seq<char>>, module: Seq<char>) -> Seq<char> {
    match function {
        Some(f) => f,
        None => module,
    }
}

/// The ghost view of the generator's running function name.
pub open spec fn function_view(function_name: Option<String>) -> Option<Seq<char>> {
    match function_name {
        Some(s) => Some(s@),
        None => None,
    }
}

/// What one semantic command generates, and the context it leaves behind;
/// or why it is rejected.
pub open spec fn gen_one(
    cmd: semantics::CommandV,
    module: Seq<char>,
    ctx: ContextV,
) -> Result<(Seq<hack::CommandV>, ContextV), TranslateError> {
    match cmd {
        semantics::CommandV::Arithmetic(a) => Ok(
            (
                arithmetic::construct_seq(
                    a,
                    module,
                    function_name_seq(ctx.function),
                    ctx.comp_counter,
                ),
                ContextV {
                    function: ctx.function,
                    comp_counter: ctx.comp_counter + arithmetic::comparison_count(a),
                    return_site_counter: ctx.return_site_counter,
                },
            ),
        ),
        semantics::CommandV::MemoryAccess(t, s, i) => match memory_access::memory_access_err(
            t,
            s,
            i,
        ) {
            Some(e) => Err(e),
            None => Ok((memory_access::memory_access_seq(t, s, i, module), ctx)),
        },
        semantics::CommandV::Function(f, k) => Ok(
            (
                function_call::function_seq(f, k as nat),
                ContextV {
                    function: Some(f),
                    comp_counter: ctx.comp_counter,
                    return_site_counter: ctx.return_site_counter,
                },
            ),
        ),
        semantics::CommandV::Call(f, n) => if n + 5 >= 32768 {
            Err(TranslateError::ArgsCountOutOfRange)
        } else {
            Ok(
                (
                    function_call::call_seq(
                        f,
                        n,
                        labels::return_site_label(
                            caller_name_seq(ctx.function, module),
                            ctx.return_site_counter,
                        ),
                    ),
                    ContextV {
                        function: ctx.function,
                        comp_counter: ctx.comp_counter,
                        return_site_counter: ctx.return_site_counter + 1,
                    },
                ),
            )
        },
        semantics::CommandV::Return => match ctx.function {
            None => Err(TranslateError::ReturnOutsideFunction),
            Some(_) => Ok((function_call::return_seq(), ctx)),
        },
        semantics::CommandV::Label(l) => match ctx.function {
            None => Err(TranslateError::LabelOutsideFunction),
            Some(f) => Ok((branch::label_seq(f, l), ctx)),
        },
        semantics::CommandV::Goto(l) => match ctx.function {
            None => Err(TranslateError::LabelOutsideFunction),
            Some(f) => Ok((branch::goto_seq(f, l), ctx)),
        },
        semantics::CommandV::IfGoto(l) => match ctx.function {
            None => Err(TranslateError::LabelOutsideFunction),
            Some(f) => Ok((branch::if_goto_seq(f, l), ctx)),
        },
    }
}

/// The fold of `gen_one` over a command sequence: the concatenation of
/// everything generated, or the first rejection.
pub open spec fn gen_cmds(
    cmds: Seq<semantics::CommandV>,
    module: Seq<char>,
    ctx: ContextV,
) -> Result<(Seq<hack::CommandV>, ContextV), TranslateError>
    decreases cmds.len(),
{
    if cmds.len() == 0 {
        Ok((Seq::empty(), ctx))
    } else {
        match gen_one(cmds[0], module, ctx) {
            Err(e) => Err(e),
            Ok(p) => match gen_cmds(cmds.drop_first(), module, p.1) {
                Err(e) => Err(e),
                Ok(q) => Ok((p.0 + q.0, q.1)),
            },
        }
    }
}

/// Unrolling the fold from the right: appending one command runs the fold,
/// then that command in the final context.
pub proof fn lemma_gen_cmds_snoc(
    cmds: Seq<semantics::CommandV>,
    c: semantics::CommandV,
    module: Seq<char>,
    ctx: ContextV,
)
    ensures
        gen_cmds(cmds.push(c), module, ctx) == match gen_cmds(cmds, module, ctx) {
            Err(e) => Err::<(Seq<hack::CommandV>, ContextV), TranslateError>(e),
            Ok(p) => match gen_one(c, module, p.1) {
                Err(e) => Err(e),
                Ok(q) => Ok((p.0 + q.0, q.1)),
            },
        },
    decreases cmds.len(),
{
    reveal_with_fuel(gen_cmds, 3);
    let s1 = cmds.push(c);
    if cmds.len() == 0 {
        assert(s1[0] == c);
        assert(s1.drop_first() =~= Seq::<semantics::CommandV>::empty());
        match gen_one(c, module, ctx) {
            Err(e) => {},
            Ok(q) => {
                assert(gen_cmds(s1.drop_first(), module, q.1) == Ok::<
                    (Seq<hack::CommandV>, ContextV),
                    TranslateError,
                >((Seq::empty(), q.1)));
                assert(q.0 + Seq::<hack::CommandV>::empty() =~= q.0);
                assert(Seq::<hack::CommandV>::empty() + q.0 =~= q.0);
            },
        }
    } else {
        assert(s1[0] == cmds[0]);
        assert(s1.drop_first() =~= cmds.drop_first().push(c));
        match gen_one(cmds[0], module, ctx) {
            Err(e) => {},
            Ok(p) => {
                lemma_gen_cmds_snoc(cmds.drop_first(), c, module, p.1);
                match gen_cmds(cmds.drop_first(), module, p.1) {
                    Err(e) => {},
                    Ok(q) => {
                        match gen_one(c, module, q.1) {
                            Err(e) => {},
                            Ok(w) => {
                                assert((p.0 + q.0) + w.0 =~= p.0 + (q.0 + w.0));
                            },
                        }
                    },
                }
            },
        }
    }
}

/// A rejection of a prefix is the rejection of the whole sequence.
pub proof fn lemma_gen_cmds_prefix_err(
    cmds: Seq<semantics::CommandV>,
    module: Seq<char>,
    ctx: ContextV,
    j: int,
)
    requires
        0 <= j <= cmds.len(),
        gen_cmds(cmds.take(j), module, ctx) is Err,
    ensures
        gen_cmds(cmds, module, ctx) == gen_cmds(cmds.take(j), module, ctx),
    decreases cmds.len() - j,
{
    if j == cmds.len() {
        assert(cmds.take(j) =~= cmds);
    } else {
        assert(cmds.take(j + 1) =~= cmds.take(j).push(cmds[j]));
        lemma_gen_cmds_snoc(cmds.take(j), cmds[j], module, ctx);
        lemma_gen_cmds_prefix_err(cmds, module, ctx, j + 1);
    }
}

/// The comparison lowerings of one run: for each, the enclosing function
/// name and the counter value stamped into its generated labels, in order.
pub open spec fn comp_events(
    cmds: Seq<semantics::CommandV>,
    module: Seq<char>,
    ctx: ContextV,
) -> Seq<(Seq<char>, nat)>
    decreases cmds.len(),
{
    if cmds.len() == 0 {
        Seq::empty()
    } else {
        match gen_one(cmds[0], module, ctx) {
            Err(_) => Seq::empty(),
            Ok(p) => comp_event_of(cmds[0], ctx) + comp_events(cmds.drop_first(), module, p.1),
        }
    }
}

/// The comparison event of one command, if it is a comparison.
pub open spec fn comp_event_of(cmd: semantics::CommandV, ctx: ContextV) -> Seq<(Seq<char>, nat)> {
    match cmd {
        semantics::CommandV::Arithmetic(a) => if arithmetic::comparison_count(a) == 1 {
            seq![(function_name_seq(ctx.function), ctx.comp_counter)]
        } else {
            Seq::empty()
        },
        _ => Seq::empty(),
    }
}

/// The call lowerings of one run: for each, the caller name and the
/// counter value stamped into its return-site label, in order.
pub open spec fn call_events(
    cmds: Seq<semantics::CommandV>,
    module: Seq<char>,
    ctx: ContextV,
) -> Seq<(Seq<char>, nat)>
    decreases cmds.len(),
{
    if cmds.len() == 0 {
        Seq::empty()
    } else {
        match gen_one(cmds[0], module, ctx) {
            Err(_) => Seq::empty(),
            Ok(p) => call_event_of(cmds[0], module, ctx) + call_events(
                cmds.drop_first(),
                module,
                p.1,
            ),
        }
    }
}

/// The call event of one command, if it is an accepted call.
pub open spec fn call_event_of(
    cmd: semantics::CommandV,
    module: Seq<char>,
    ctx: ContextV,
) -> Seq<(Seq<char>, nat)> {
    match cmd {
        semantics::CommandV::Call(_, n) => if n + 5 < 32768 {
            seq![(caller_name_seq(ctx.function, module), ctx.return_site_counter)]
        } else {
            Seq::empty()
        },
        _ => Seq::empty(),
    }
}

/// The comparison counters of a run start at the context's counter and
/// strictly increase from event to event.
pub proof fn lemma_comp_counters_increase(
    cmds: Seq<semantics::CommandV>,
    module: Seq<char>,
    ctx: ContextV,
)
    ensures
        forall|k: int|
            0 <= k < comp_events(cmds, module, ctx).len() ==> (
            #[trigger] comp_events(cmds, module, ctx)[k]).1 >= ctx.comp_counter,
        forall|i: int, j: int|
            0 <= i < j < comp_events(cmds, module, ctx).len() ==> (
            #[trigger] comp_events(cmds, module, ctx)[i]).1 < (
            #[trigger] comp_events(cmds, module, ctx)[j]).1,
    decreases cmds.len(),
{
    if cmds.len() == 0 {
    } else {
        let ev = comp_events(cmds, module, ctx);
        match gen_one(cmds[0], module, ctx) {
            Err(_) => {},
            Ok(p) => {
                let head = comp_event_of(cmds[0], ctx);
                let tail = comp_events(cmds.drop_first(), module, p.1);
                lemma_comp_counters_increase(cmds.drop_first(), module, p.1);
                assert(ev == head + tail);
                assert(head.len() <= 1);
                assert(p.1.comp_counter >= ctx.comp_counter);
                if head.len() == 1 {
                    assert(head[0].1 == ctx.comp_counter);
                    assert(p.1.comp_counter == ctx.comp_counter + 1);
                }
                assert forall|k: int| 0 <= k < ev.len() implies (#[trigger] ev[k]).1
                    >= ctx.comp_counter by {
                    if k < head.len() {
                        assert(ev[k] == head[0]);
                    } else {
                        assert(ev[k] == tail[k - head.len()]);
                    }
                }
                assert forall|i: int, j: int| 0 <= i < j < ev.len() implies (
                #[trigger] ev[i]).1 < (#[trigger] ev[j]).1 by {
                    if i < head.len() {
                        assert(ev[i] == head[0]);
                        assert(ev[j] == tail[j - head.len()]);
                        assert(ev[j].1 >= p.1.comp_counter);
                    } else {
                        assert(ev[i] == tail[i - head.len()]);
                        assert(ev[j] == tail[j - head.len()]);
                    }
                }
            },
        }
    }
}

/// The return-site counters of a run start at the context's counter and
/// strictly increase from event to event.
pub proof fn lemma_call_counters_increase(
    cmds: Seq<semantics::CommandV>,
    module: Seq<char>,
    ctx: ContextV,
)
    ensures
        forall|k: int|
            0 <= k < call_events(cmds, module, ctx).len() ==> (
            #[trigger] call_events(cmds, module, ctx)[k]).1 >= ctx.return_site_counter,
        forall|i: int, j: int|
            0 <= i < j < call_events(cmds, module, ctx).len() ==> (
            #[trigger] call_events(cmds, module, ctx)[i]).1 < (
            #[trigger] call_events(cmds, module, ctx)[j]).1,
    decreases cmds.len(),
{
    if cmds.len() == 0 {
    } else {
        let ev = call_events(cmds, module, ctx);
        match gen_one(cmds[0], module, ctx) {
            Err(_) => {},
            Ok(p) => {
                let head = call_event_of(cmds[0], module, ctx);
                let tail = call_events(cmds.drop_first(), module, p.1);
                lemma_call_counters_increase(cmds.drop_first(), module, p.1);
                assert(ev == head + tail);
                assert(head.len() <= 1);
                assert(p.1.return_site_counter >= ctx.return_site_counter);
                if head.len() == 1 {
                    assert(head[0].1 == ctx.return_site_counter);
                    assert(p.1.return_site_counter == ctx.return_site_counter + 1);
                }
                assert forall|k: int| 0 <= k < ev.len() implies (#[trigger] ev[k]).1
                    >= ctx.return_site_counter by {
                    if k < head.len() {
                        assert(ev[k] == head[0]);
                    } else {
                        assert(ev[k] == tail[k - head.len()]);
                    }
                }
                assert forall|i: int, j: int| 0 <= i < j < ev.len() implies (
                #[trigger] ev[i]).1 < (#[trigger] ev[j]).1 by {
                    if i < head.len() {
                        assert(ev[i] == head[0]);
                        assert(ev[j] == tail[j - head.len()]);
                        assert(ev[j].1 >= p.1.return_site_counter);
                    } else {
                        assert(ev[i] == tail[i - head.len()]);
                        assert(ev[j] == tail[j - head.len()]);
                    }
                }
            },
        }
    }
}

/// Label uniqueness, comparison half: in one translation unit, any two
/// distinct comparison lowerings generate four pairwise distinct labels,
/// and no branch-taken label of one equals a fall-through label of the
/// other. Entry, branch and return-site labels are outside this law: they
/// carry user-chosen names, while every comparison label starts with a
/// reserved prefix and ends in a counter drawn once.
pub proof fn lemma_comparison_labels_unique(cmds: Seq<semantics::CommandV>, module: Seq<char>)
    ensures
        forall|i: int, j: int|
            0 <= i < j < comp_events(cmds, module, init_context()).len() ==> {
                let e1 = #[trigger] comp_events(cmds, module, init_context())[i];
                let e2 = #[trigger] comp_events(cmds, module, init_context())[j];
                &&& labels::true_label(module, e1.0, e1.1) != labels::true_label(
                    module,
                    e2.0,
                    e2.1,
                )
                &&& labels::false_label(module, e1.0, e1.1) != labels::false_label(
                    module,
                    e2.0,
                    e2.1,
                )
                &&& labels::true_label(module, e1.0, e1.1) != labels::false_label(
                    module,
                    e2.0,
                    e2.1,
                )
                &&& labels::true_label(module, e2.0, e2.1) != labels::false_label(
                    module,
                    e1.0,
                    e1.1,
                )
            },
{
    let ev = comp_events(cmds, module, init_context());
    lemma_comp_counters_increase(cmds, module, init_context());
    assert forall|i: int, j: int| 0 <= i < j < ev.len() implies {
        let e1 = #[trigger] ev[i];
        let e2 = #[trigger] ev[j];
        &&& labels::true_label(module, e1.0, e1.1) != labels::true_label(module, e2.0, e2.1)
        &&& labels::false_label(module, e1.0, e1.1) != labels::false_label(module, e2.0, e2.1)
        &&& labels::true_label(module, e1.0, e1.1) != labels::false_label(module, e2.0, e2.1)
        &&& labels::true_label(module, e2.0, e2.1) != labels::false_label(module, e1.0, e1.1)
    } by {
        labels::lemma_comparison_labels_distinct(module, ev[i].0, ev[i].1, ev[j].0, ev[j].1);
        labels::lemma_comparison_labels_distinct(module, ev[j].0, ev[j].1, ev[i].0, ev[i].1);
    }
}

/// Label uniqueness, call half: in one translation unit, any two distinct
/// call lowerings declare distinct return-site labels.
pub proof fn lemma_return_site_labels_unique(cmds: Seq<semantics::CommandV>, module: Seq<char>)
    ensures
        forall|i: int, j: int|
            0 <= i < j < call_events(cmds, module, init_context()).len() ==> {
                let e1 = #[trigger] call_events(cmds, module, init_context())[i];
                let e2 = #[trigger] call_events(cmds, module, init_context())[j];
                labels::return_site_label(e1.0, e1.1) != labels::return_site_label(e2.0, e2.1)
            },
{
    let ev = call_events(cmds, module, init_context());
    lemma_call_counters_increase(cmds, module, init_context());
    assert forall|i: int, j: int| 0 <= i < j < ev.len() implies {
        let e1 = #[trigger] ev[i];
        let e2 = #[trigger] ev[j];
        labels::return_site_label(e1.0, e1.1) != labels::return_site_label(e2.0, e2.1)
    } by {
        labels::lemma_return_site_labels_distinct(ev[i].0, ev[i].1, ev[j].0, ev[j].1);
    }
}

/// The stack-pointer adjustment of one generated command: `+1` for the
/// increment instruction `M=M+1`, `-1` for the decrement instructions
/// `M=M-1` and `AM=M-1`. Within the lowerings this law covers, these three
/// instructions are issued only at `SP` (each sequence shows it), so their
/// net count is the change of `SP`.
pub open spec fn sp_delta_of(c: hack::CommandV) -> int {
    match c {
        hack::CommandV::C(cc) => {
            if cc == (hack::CCommand {
                dest: Some(hack::DestMnemonic::M),
                comp: hack::CompMnemonic::MPlusOne,
                jump: None,
            }) {
                1
            } else if cc == (hack::CCommand {
                dest: Some(hack::DestMnemonic::M),
                comp: hack::CompMnemonic::MMinusOne,
                jump: None,
            }) {
                -1
            } else if cc == (hack::CCommand {
                dest: Some(hack::DestMnemonic::AM),
                comp: hack::CompMnemonic::MMinusOne,
                jump: None,
            }) {
                -1
            } else {
                0
            }
        },
        _ => 0,
    }
}

/// The net stack-pointer adjustment of a generated sequence.
pub open spec fn sp_adjust(s: Seq<hack::CommandV>) -> int
    decreases s.len(),
{
    if s.len() == 0 {
        0
    } else {
        sp_delta_of(s[0]) + sp_adjust(s.drop_first())
    }
}

/// The adjustment of a concatenation is the sum of the adjustments.
pub proof fn lemma_sp_adjust_concat(a: Seq<hack::CommandV>, b: Seq<hack::CommandV>)
    ensures
        sp_adjust(a + b) == sp_adjust(a) + sp_adjust(b),
    decreases a.len(),
{
    if a.len() == 0 {
        assert(a + b =~= b);
    } else {
        assert((a + b).drop_first() =~= a.drop_first() + b);
        assert((a + b)[0] == a[0]);
        lemma_sp_adjust_concat(a.drop_first(), b);
    }
}

/// The stack effect of one VM statement outside the call protocol: a push
/// adds a word, a pop and a conditional branch consume one, a unary
/// operator rewrites in place, and a binary operator replaces two words by
/// one.
pub open spec fn stack_delta(cmd: semantics::CommandV) -> int {
    match cmd {
        semantics::CommandV::Arithmetic(semantics::ArithmeticCommand::UnaryOperator(_)) => 0,
        semantics::CommandV::Arithmetic(semantics::ArithmeticCommand::BinaryOperator(_)) => -1,
        semantics::CommandV::MemoryAccess(vm::AccessType::Push, _, _) => 1,
        semantics::CommandV::MemoryAccess(vm::AccessType::Pop, _, _) => -1,
        semantics::CommandV::Label(_) => 0,
        semantics::CommandV::Goto(_) => 0,
        semantics::CommandV::IfGoto(_) => -1,
        _ => 0,
    }
}

/// Stack balance: every arithmetic, memory-access and branching lowering
/// adjusts the stack pointer exactly by the statement's stack effect. The
/// call protocol (`function`, `call`, `return`) is outside this law: it
/// moves `SP` through frame arithmetic rather than pushes and pops alone.
#[verifier::rlimit(100)]
pub proof fn lemma_stack_balance(cmd: semantics::CommandV, module: Seq<char>, ctx: ContextV)
    requires
        gen_one(cmd, module, ctx) is Ok,
        match cmd {
            semantics::CommandV::Arithmetic(_) => true,
            semantics::CommandV::MemoryAccess(_, _, _) => true,
            semantics::CommandV::Label(_) => true,
            semantics::CommandV::Goto(_) => true,
            semantics::CommandV::IfGoto(_) => true,
            _ => false,
        },
    ensures
        sp_adjust(gen_one(cmd, module, ctx)->Ok_0.0) == stack_delta(cmd),
{
    reveal_with_fuel(sp_adjust, 16);
    let f = function_name_seq(ctx.function);
    match cmd {
        semantics::CommandV::Arithmetic(a) => {
            match a {
                semantics::ArithmeticCommand::UnaryOperator(op) => {
                    lemma_sp_adjust_concat(
                        arithmetic::load_argx_to_d_seq() + arithmetic::exec_unary_operator_seq(op),
                        arithmetic::write_unary_result_to_stack_seq(),
                    );
                    lemma_sp_adjust_concat(
                        arithmetic::load_argx_to_d_seq(),
                        arithmetic::exec_unary_operator_seq(op),
                    );
                    assert(sp_adjust(arithmetic::load_argx_to_d_seq()) == 0);
                    assert(sp_adjust(arithmetic::exec_unary_operator_seq(op)) == 0);
                    assert(sp_adjust(arithmetic::write_unary_result_to_stack_seq()) == 0);
                },
                semantics::ArithmeticCommand::BinaryOperator(op) => {
                    let mid = arithmetic::exec_binary_operator_seq(op, module, f, ctx.comp_counter);
                    lemma_sp_adjust_concat(
                        arithmetic::load_argxy_to_d_and_a_seq() + mid,
                        arithmetic::write_binary_result_to_stack_seq(),
                    );
                    lemma_sp_adjust_concat(arithmetic::load_argxy_to_d_and_a_seq(), mid);
                    assert(sp_adjust(arithmetic::load_argxy_to_d_and_a_seq()) == 0);
                    assert(sp_adjust(mid) == 0);
                    assert(sp_adjust(arithmetic::write_binary_result_to_stack_seq()) == -1);
                },
            }
        },
        semantics::CommandV::MemoryAccess(t, s, i) => {
            match t {
                vm::AccessType::Push => {
                    lemma_sp_adjust_concat(
                        memory_access::push_source_seq(s, i, module),
                        memory_access::push_d_seq(),
                    );
                    assert(sp_adjust(memory_access::push_source_seq(s, i, module)) == 0);
                    assert(sp_adjust(memory_access::push_d_seq()) == 1);
                },
                vm::AccessType::Pop => {
                    lemma_sp_adjust_concat(
                        memory_access::pop_target_seq(s, i, module),
                        memory_access::pop_via_r13_seq(),
                    );
                    assert(sp_adjust(memory_access::pop_target_seq(s, i, module)) == 0);
                    assert(sp_adjust(memory_access::pop_via_r13_seq()) == -1);
                },
            }
        },
        semantics::CommandV::Label(l) => {
            assert(sp_adjust(branch::label_seq(function_name_seq(ctx.function), l)) == 0);
        },
        semantics::CommandV::Goto(l) => {
            assert(sp_adjust(branch::goto_seq(function_name_seq(ctx.function), l)) == 0);
        },
        semantics::CommandV::IfGoto(l) => {
            assert(sp_adjust(branch::if_goto_seq(function_name_seq(ctx.function), l)) == -1);
        },
        _ => {},
    }
}

/// The enclosing function's name, or the empty name outside any function.
fn current_function_str<'a>(function_name: &'a Option<String>) -> (r: &'a str)
    ensures
        r@ == function_name_seq(function_view(*function_name)),
{
    match function_name {
        Some(s) => s.as_str(),
        None => "",
    }
}

/// Generate the Hack command sequence of one translation unit from its
/// semantic commands and module name. The result is exactly what the model
/// `gen_cmds` gives on the same arguments, starting from the initial
/// context; a rejected unit reports the model's error and emits nothing.
pub fn generate(commands: &Vec<semantics::Command>, module_name: &str) -> (r: Result<
    Vec<hack::Command>,
    TranslateError,
>)
    requires
        commands@.len() <= u32::MAX,
    ensures
        ({
            let g = gen_cmds(semantics::view_of_commands(commands@), module_name@, init_context());
            match r {
                Ok(v) => g is Ok && hack::view_of_commands(v@) == g->Ok_0.0,
                Err(e) => g is Err && g->Err_0 == e,
            }
        }),
{
    let ghost cmds_v = semantics::view_of_commands(commands@);
    let mut out: Vec<hack::Command> = Vec::new();
    let mut function_name: Option<String> = None;
    let mut comp_counter: u32 = 0;
    let mut ret_counter: u32 = 0;
    let mut i: usize = 0;
    proof {
        assert(cmds_v.take(0) =~= Seq::<semantics::CommandV>::empty());
        assert(hack::view_of_commands(out@) =~= Seq::<hack::CommandV>::empty());
    }
    while i < commands.len()
        invariant
            commands@.len() <= u32::MAX,
            cmds_v == semantics::view_of_commands(commands@),
            cmds_v.len() == commands@.len(),
            i <= commands@.len(),
            comp_counter <= i,
            ret_counter <= i,
            gen_cmds(cmds_v.take(i as int), module_name@, init_context()) == Ok::<
                (Seq<hack::CommandV>, ContextV),
                TranslateError,
            >(
                (
                    hack::view_of_commands(out@),
                    ContextV {
                        function: function_view(function_name),
                        comp_counter: comp_counter as nat,
                        return_site_counter: ret_counter as nat,
                    },
                ),
            ),
        decreases commands@.len() - i,
    {
        let ghost prefix = cmds_v.take(i as int);
        proof {
            assert(cmds_v.take(i + 1) =~= prefix.push(cmds_v[i as int]));
            assert(cmds_v[i as int] == commands@[i as int]@);
            lemma_gen_cmds_snoc(prefix, cmds_v[i as int], module_name@, init_context());
        }
        let cmd = &commands[i];
        match cmd {
            semantics::Command::Arithmetic(a) => {
                proof {
                    assert(arithmetic::comparison_count(*a) <= 1);
                }
                let function_str = current_function_str(&function_name);
                let blocks = arithmetic::construct(
                    *a,
                    module_name,
                    function_str,
                    &mut comp_counter,
                );
                flatten_blocks(blocks, &mut out);
            },
            semantics::Command::MemoryAccess(m) => {
                match memory_access::construct(m, module_name) {
                    Ok(blocks) => {
                        flatten_blocks(blocks, &mut out);
                    },
                    Err(e) => {
                        proof {
                            lemma_gen_cmds_prefix_err(cmds_v, module_name@, init_context(), i + 1);
                        }
                        return Err(e);
                    },
                }
            },
            semantics::Command::Function { name, local_variable_count } => {
                let blocks = function_call::construct_function(name, *local_variable_count);
                flatten_blocks(blocks, &mut out);
                function_name = Some(name.get_string());
            },
            semantics::Command::Call { name, args_count } => {
                if *args_count >= 32763 {
                    proof {
                        lemma_gen_cmds_prefix_err(cmds_v, module_name@, init_context(), i + 1);
                    }
                    return Err(TranslateError::ArgsCountOutOfRange);
                }
                let caller = match &function_name {
                    Some(s) => s.as_str(),
                    None => module_name,
                };
                let blocks = function_call::construct_call(
                    name,
                    *args_count,
                    caller,
                    &mut ret_counter,
                );
                flatten_blocks(blocks, &mut out);
            },
            semantics::Command::Return => {
                match &function_name {
                    None => {
                        proof {
                            lemma_gen_cmds_prefix_err(cmds_v, module_name@, init_context(), i + 1);
                        }
                        return Err(TranslateError::ReturnOutsideFunction);
                    },
                    Some(_) => {
                        let blocks = function_call::construct_return();
                        flatten_blocks(blocks, &mut out);
                    },
                }
            },
            semantics::Command::Label(l) => {
                match &function_name {
                    None => {
                        proof {
                            lemma_gen_cmds_prefix_err(cmds_v, module_name@, init_context(), i + 1);
                        }
                        return Err(TranslateError::LabelOutsideFunction);
                    },
                    Some(f) => {
                        let blocks = branch::construct_label(l, f.as_str());
                        flatten_blocks(blocks, &mut out);
                    },
                }
            },
            semantics::Command::Goto(l) => {
                match &function_name {
                    None => {
                        proof {
                            lemma_gen_cmds_prefix_err(cmds_v, module_name@, init_context(), i + 1);
                        }
                        return Err(TranslateError::LabelOutsideFunction);
                    },
                    Some(f) => {
                        let blocks = branch::construct_goto(l, f.as_str());
                        flatten_blocks(blocks, &mut out);
                    },
                }
            },
            semantics::Command::IfGoto(l) => {
                match &function_name {
                    None => {
                        proof {
                            lemma_gen_cmds_prefix_err(cmds_v, module_name@, init_context(), i + 1);
                        }
                        return Err(TranslateError::LabelOutsideFunction);
                    },
                    Some(f) => {
                        let blocks = branch::construct_if_goto(l, f.as_str());
                        flatten_blocks(blocks, &mut out);
                    },
                }
            },
        }
        i = i + 1;
    }
    proof {
        assert(cmds_v.take(commands@.len() as int) =~= cmds_v);
    }
    Ok(out)
}

/// Translate one translation unit from its VM commands: lift every command
/// into the semantic representation, then generate.
pub fn translate(commands: Vec<vm::Command>, module_name: &str) -> (r: Result<
    Vec<hack::Command>,
    TranslateError,
>)
    requires
        commands@.len() <= u32::MAX,
    ensures
        ({
            let g = gen_cmds(
                semantics::lift_seq(vm::view_of_commands(commands@)),
                module_name@,
                init_context(),
            );
            match r {
                Ok(v) => g is Ok && hack::view_of_commands(v@) == g->Ok_0.0,
                Err(e) => g is Err && g->Err_0 == e,
            }
        }),
{
    let ghost orig = commands@;
    let mut rest = commands;
    let mut sems: Vec<semantics::Command> = Vec::new();
    let mut taken: usize = 0;
    let total: usize = rest.len();
    proof {
        assert(orig.subrange(0, 0) =~= Seq::<vm::Command>::empty());
        assert(semantics::view_of_commands(sems@) =~= semantics::lift_seq(
            vm::view_of_commands(orig.subrange(0, 0)),
        ));
    }
    while rest.len() > 0
        invariant
            orig.len() == total,
            total <= u32::MAX,
            taken + rest@.len() == orig.len(),
            rest@ =~= orig.subrange(taken as int, orig.len() as int),
            sems@.len() == taken,
            semantics::view_of_commands(sems@) == semantics::lift_seq(
                vm::view_of_commands(orig.subrange(0, taken as int)),
            ),
        decreases rest@.len(),
    {
        let cmd = rest.remove(0);
        proof {
            assert(cmd == orig[taken as int]);
        }
        let ghost sems_before = sems@;
        let lifted = semantics::lift(cmd);
        sems.push(lifted);
        taken = taken + 1;
        proof {
            let sub1 = orig.subrange(0, taken - 1);
            let sub2 = orig.subrange(0, taken as int);
            assert(sub2 =~= sub1.push(orig[taken - 1]));
            assert(vm::view_of_commands(sub2) =~= vm::view_of_commands(sub1).push(
                orig[taken - 1]@,
            ));
            assert(semantics::lift_seq(vm::view_of_commands(sub2)) =~= semantics::lift_seq(
                vm::view_of_commands(sub1),
            ).push(semantics::lift_spec(orig[taken - 1]@)));
            assert(semantics::view_of_commands(sems@) =~= semantics::view_of_commands(
                sems_before,
            ).push(lifted@));
            assert(semantics::view_of_commands(sems@) == semantics::lift_seq(
                vm::view_of_commands(sub2),
            ));
        }
    }
    proof {
        assert(orig.subrange(0, orig.len() as int) =~= orig);
    }
    generate(&sems, module_name)
}

} // verus!
