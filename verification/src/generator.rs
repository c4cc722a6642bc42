//! The synthetic-contract generator.
//!
//! A contract of depth `d` is a textual WebAssembly module with `d` nested
//! blocks, each padded by a no-op load/drop of a local, followed by `d`
//! branch-and-close sequences whose targets count down from `d` to `1`, so
//! the innermost close branches to the outermost enclosing block.  The text
//! is a function of the depth alone; an external assembler turns it into the
//! binary form the engine loads.

use crate::text::{dec_rep, push_decimal};
use vstd::prelude::*;
use vstd::string::StringExecFns;

verus! {

/// One open-block construct with its structural padding.
pub open spec fn block_text() -> Seq<char> {
    "\n            block\n            local.get 0\n            drop\n        "@
}

/// The text that precedes a branch target index.
pub open spec fn br_open_text() -> Seq<char> {
    "\n            br "@
}

/// The text that follows a branch target index and closes one block.
pub open spec fn br_close_text() -> Seq<char> {
    "\n            end\n        "@
}

/// One branch-and-close construct targeting block level `n`.
pub open spec fn br_text(n: int) -> Seq<char> {
    br_open_text() + dec_rep(n) + br_close_text()
}

/// `d` open-block constructs in a row.
pub open spec fn blocks_text(d: int) -> Seq<char>
    decreases d,
{
    if d <= 0 {
        Seq::empty()
    } else {
        blocks_text(d - 1) + block_text()
    }
}

/// The branch-and-close constructs for targets `d, d - 1, ..., n + 1`,
/// in that order.
pub open spec fn branches_down(d: int, n: int) -> Seq<char>
    decreases d - n,
{
    if n >= d {
        Seq::empty()
    } else {
        br_text(d) + branches_down(d - 1, n)
    }
}

/// The module text up to the point where the nested structure is inserted:
/// one exported function, one local initialized to a constant.
pub open spec fn module_head_text() -> Seq<char> {
    "\n        (module\n            (export \"hello\" (func 0))\n              (func (;0;)\n                (local i32)\n                i32.const 1\n                local.set 0\n                "@
}

/// The epilogue after the nested structure: return and the closing brackets.
pub open spec fn module_tail_text() -> Seq<char> {
    "\n                return\n              )\n            )"@
}

/// The complete module text for depth `d`: a function of the depth alone.
pub open spec fn wat_source(d: int) -> Seq<char> {
    module_head_text() + blocks_text(d) + branches_down(d, 0) + module_tail_text()
}

/// Peeling one branch off the low end: emitting the constructs for targets
/// `d .. n + 1` and then the one for `n` gives the constructs for
/// `d .. n`.
proof fn lemma_branches_snoc(d: int, n: int)
    requires
        0 < n <= d,
    ensures
        branches_down(d, n - 1) == branches_down(d, n) + br_text(n),
    decreases d - n,
{
    if n == d {
        assert(branches_down(d - 1, d - 1) == Seq::<char>::empty());
        assert(branches_down(d, d) == Seq::<char>::empty());
        assert(branches_down(d, d - 1) == br_text(d) + branches_down(d - 1, d - 1));
        assert(branches_down(d, d - 1) =~= branches_down(d, d) + br_text(d));
    } else {
        lemma_branches_snoc(d - 1, n);
        assert(branches_down(d, n - 1) =~= branches_down(d, n) + br_text(n));
    }
}

/// Law: the generator is deterministic.  For one depth, two generated
/// module texts are identical, character for character: the text is a
/// function of the depth alone.
pub proof fn lemma_generator_deterministic(d: int, a: Seq<char>, b: Seq<char>)
    requires
        d >= 1,
        a == wat_source(d),
        b == wat_source(d),
    ensures
        a == b,
{
}

/// Builds the module text for the given depth.
pub fn make_wat(depth: i32) -> (s: String)
    requires
        depth >= 1,
    ensures
        s@ == wat_source(depth as int),
{
    let mut blocks = String::new();
    let mut j: i32 = 0;
    while j < depth
        invariant
            0 <= j <= depth,
            blocks@ == blocks_text(j as int),
        decreases depth - j,
    {
        blocks.append(
            "\n            block\n            local.get 0\n            drop\n        ",
        );
        j = j + 1;
    }
    let mut n: i32 = depth;
    proof {
        assert(blocks@ =~= blocks_text(depth as int) + branches_down(depth as int, depth as int));
    }
    while n > 0
        invariant
            0 <= n <= depth,
            blocks@ == blocks_text(depth as int) + branches_down(depth as int, n as int),
        decreases n,
    {
        blocks.append("\n            br ");
        push_decimal(&mut blocks, n as u64);
        blocks.append("\n            end\n        ");
        proof {
            lemma_branches_snoc(depth as int, n as int);
            assert(blocks@ =~= blocks_text(depth as int) + branches_down(
                depth as int,
                n as int - 1,
            ));
        }
        n = n - 1;
    }
    let mut code = String::new();
    code.append(
        "\n        (module\n            (export \"hello\" (func 0))\n              (func (;0;)\n                (local i32)\n                i32.const 1\n                local.set 0\n                ",
    );
    code.append(blocks.as_str());
    code.append("\n                return\n              )\n            )");
    proof {
        assert(code@ =~= wat_source(depth as int));
    }
    code
}

} // verus!
