use libc::c_int;
use vstd::prelude::*;

verus! {

/// A switch of the solver.
#[derive(Debug, Clone, Copy, PartialEq, Eq, Structural)]
pub enum YesNo {
    No,
    Yes,
}

/// How much of an earlier factorization is used again.
#[derive(Debug, Clone, Copy, PartialEq, Eq, Structural)]
pub enum Fact {
    /// The matrix is factorized from scratch.
    DoFact,
    SamePattern,
    SamePatternSameRowPerm,
    Factored,
}

/// How the rows are permuted.
#[derive(Debug, Clone, Copy, PartialEq, Eq, Structural)]
pub enum RowPerm {
    NoRowPerm,
    /// Large entries are brought to the diagonal.
    LargeDiag,
    MyPermR,
}

/// How the columns are permuted.
#[derive(Debug, Clone, Copy, PartialEq, Eq, Structural)]
pub enum ColPerm {
    /// The columns stay in their order.
    Natural,
    /// Minimum degree ordering on the structure of `A' * A`.
    MmdAtA,
    /// Minimum degree ordering on the structure of `A' + A`.
    MmdAtPlusA,
    /// Approximate minimum degree column ordering.
    Colamd,
    MetisAtPlusA,
    Parmetis,
    Zoltan,
    MyPermC,
}

/// Which system is solved.
#[derive(Debug, Clone, Copy, PartialEq, Eq, Structural)]
pub enum Trans {
    NoTrans,
    Trans,
    Conj,
}

/// How the solution is refined.
#[derive(Debug, Clone, Copy, PartialEq, Eq, Structural)]
pub enum IterRefine {
    NoRefine,
    Single,
    Double,
    Extra,
}

/// A matrix norm.
#[derive(Debug, Clone, Copy, PartialEq, Eq, Structural)]
pub enum Norm {
    One,
    Two,
    Inf,
}

/// A variant of the modified incomplete factorization.
#[derive(Debug, Clone, Copy, PartialEq, Eq, Structural)]
pub enum Milu {
    Silu,
    Smilu1,
    Smilu2,
    Smilu3,
}

/// A double, held as the 64 bits that encode it, so that it can be handed on
/// unchanged.
#[derive(Debug, Clone, Copy, PartialEq, Eq, Structural)]
pub struct Real {
    pub bits: u64,
}

/// The bits of the double 0.
pub const REAL_ZERO_BITS: u64 = 0;

/// The bits of the double 1.
pub const REAL_ONE_BITS: u64 = 0x3ff0_0000_0000_0000;

/// The configuration record of the solver, field for field.
#[derive(Debug, Clone, Copy, PartialEq, Eq, Structural)]
pub struct SuperluOptions {
    pub fact: Fact,
    pub equil: YesNo,
    pub col_perm: ColPerm,
    pub trans: Trans,
    pub iter_refine: IterRefine,
    pub diag_pivot_thresh: Real,
    pub symmetric_mode: YesNo,
    pub pivot_growth: YesNo,
    pub condition_number: YesNo,
    pub row_perm: RowPerm,
    pub ilu_drop_rule: c_int,
    pub ilu_drop_tol: Real,
    pub ilu_fill_factor: Real,
    pub ilu_norm: Norm,
    pub ilu_fill_tol: Real,
    pub ilu_milu: Milu,
    pub ilu_milu_dim: Real,
    pub par_symb_fact: YesNo,
    pub replace_tiny_pivot: YesNo,
    pub solve_initialized: YesNo,
    pub refine_initialized: YesNo,
    pub print_stat: YesNo,
    pub nnz_l: c_int,
    pub nnz_u: c_int,
    pub num_lookaheads: c_int,
    pub lookahead_etree: YesNo,
    pub sym_pattern: YesNo,
}

/// The record as the solver's own defaults fill it: a full factorization
/// with equilibration, approximate minimum degree column ordering, large
/// entries brought to the diagonal, no transposition, no refinement, a
/// pivot threshold of 1, and statistics printed. Every other switch is off
/// and every other number is 0.
pub open spec fn default_options() -> SuperluOptions {
    SuperluOptions {
        fact: Fact::DoFact,
        equil: YesNo::Yes,
        col_perm: ColPerm::Colamd,
        trans: Trans::NoTrans,
        iter_refine: IterRefine::NoRefine,
        diag_pivot_thresh: Real { bits: REAL_ONE_BITS },
        symmetric_mode: YesNo::No,
        pivot_growth: YesNo::No,
        condition_number: YesNo::No,
        row_perm: RowPerm::LargeDiag,
        ilu_drop_rule: 0,
        ilu_drop_tol: Real { bits: REAL_ZERO_BITS },
        ilu_fill_factor: Real { bits: REAL_ZERO_BITS },
        ilu_norm: Norm::One,
        ilu_fill_tol: Real { bits: REAL_ZERO_BITS },
        ilu_milu: Milu::Silu,
        ilu_milu_dim: Real { bits: REAL_ZERO_BITS },
        par_symb_fact: YesNo::No,
        replace_tiny_pivot: YesNo::No,
        solve_initialized: YesNo::No,
        refine_initialized: YesNo::No,
        print_stat: YesNo::Yes,
        nnz_l: 0,
        nnz_u: 0,
        num_lookaheads: 0,
        lookahead_etree: YesNo::No,
        sym_pattern: YesNo::No,
    }
}

/// The options of a solve. The record is public: a caller changes the fields
/// it cares about before solving.
#[derive(Debug, Clone, Copy, PartialEq, Eq, Structural)]
pub struct Options {
    pub ffi: SuperluOptions,
}

impl Default for Options {
    /// The solver's own defaults.
    fn default() -> (options: Options)
        ensures
            options.ffi == default_options(),
    {
        let zero = Real { bits: REAL_ZERO_BITS };
        let mut ffi = SuperluOptions {
            fact: Fact::DoFact,
            equil: YesNo::No,
            col_perm: ColPerm::Natural,
            trans: Trans::NoTrans,
            iter_refine: IterRefine::NoRefine,
            diag_pivot_thresh: zero,
            symmetric_mode: YesNo::No,
            pivot_growth: YesNo::No,
            condition_number: YesNo::No,
            row_perm: RowPerm::NoRowPerm,
            ilu_drop_rule: 0,
            ilu_drop_tol: zero,
            ilu_fill_factor: zero,
            ilu_norm: Norm::One,
            ilu_fill_tol: zero,
            ilu_milu: Milu::Silu,
            ilu_milu_dim: zero,
            par_symb_fact: YesNo::No,
            replace_tiny_pivot: YesNo::No,
            solve_initialized: YesNo::No,
            refine_initialized: YesNo::No,
            print_stat: YesNo::No,
            nnz_l: 0,
            nnz_u: 0,
            num_lookaheads: 0,
            lookahead_etree: YesNo::No,
            sym_pattern: YesNo::No,
        };
        set_default_options(&mut ffi);
        Options { ffi }
    }
}

/// Sets the fields that a solve reads to their defaults: a full
/// factorization with equilibration, approximate minimum degree column
/// ordering, large entries brought to the diagonal, no transposition, no
/// refinement, a pivot threshold of 1, no symmetric mode, no pivot growth, no
/// condition number, and statistics printed. Every other field keeps its
/// value.
pub fn set_default_options(options: &mut SuperluOptions)
    ensures
        *final(options) == (SuperluOptions {
            fact: Fact::DoFact,
            equil: YesNo::Yes,
            col_perm: ColPerm::Colamd,
            trans: Trans::NoTrans,
            iter_refine: IterRefine::NoRefine,
            diag_pivot_thresh: Real { bits: REAL_ONE_BITS },
            symmetric_mode: YesNo::No,
            pivot_growth: YesNo::No,
            condition_number: YesNo::No,
            print_stat: YesNo::Yes,
            row_perm: RowPerm::LargeDiag,
            ..*old(options)
        }),
{
    options.fact = Fact::DoFact;
    options.equil = YesNo::Yes;
    options.col_perm = ColPerm::Colamd;
    options.trans = Trans::NoTrans;
    options.iter_refine = IterRefine::NoRefine;
    options.diag_pivot_thresh = Real { bits: REAL_ONE_BITS };
    options.symmetric_mode = YesNo::No;
    options.pivot_growth = YesNo::No;
    options.condition_number = YesNo::No;
    options.print_stat = YesNo::Yes;
    options.row_perm = RowPerm::LargeDiag;
}

} // verus!
