//! The function-argument contract model: what kind and type a call argument
//! must have, the errors a violation produces, the polymorphic
//! function-definition interface, and the simple fixed-parameter
//! implementation that compiles a checked call into an executable closure.

use vstd::prelude::*;

use crate::context::FunctionDefinitionContext;
use crate::types::{
    arg_view, args_view, clone_args, expected_matches, expected_type_matches, CompiledValueResult,
    ExpectedType, ExpectedTypeList, LhsValue, RhsValue, Type, TypeMismatchError,
};

verus! {

/// Concatenates two finite argument sequences while keeping the total
/// remaining count exactly known: elements are drawn from the first sequence
/// until it is exhausted, then from the second.
pub struct ExactSizeChain<T> {
    first: Vec<T>,
    second: Vec<T>,
}

impl<T> View for ExactSizeChain<T> {
    type V = Seq<T>;

    closed spec fn view(&self) -> Seq<T> {
        self.first@ + self.second@
    }
}

impl<T> ExactSizeChain<T> {
    /// The remaining total count can be reported as a `usize`.
    pub open spec fn wf(&self) -> bool {
        self@.len() <= usize::MAX
    }

    /// Chains two sequences; the result holds the elements of `first`
    /// followed by the elements of `second`.
    pub fn new(first: Vec<T>, second: Vec<T>) -> (r: ExactSizeChain<T>)
        requires
            first@.len() + second@.len() <= usize::MAX,
        ensures
            r@ == first@ + second@,
            r.wf(),
    {
        ExactSizeChain { first, second }
    }

    /// Draws the next element: the head of the first sequence while one
    /// remains, then the head of the second, then nothing.
    pub fn next(&mut self) -> (r: Option<T>)
        ensures
            old(self)@.len() == 0 ==> r is None && final(self)@ == old(self)@,
            old(self)@.len() > 0 ==> r == Some(old(self)@[0]) && final(self)@ == old(
                self,
            )@.drop_first(),
            final(self)@.len() <= old(self)@.len(),
    {
        if self.first.len() > 0 {
            let v = self.first.remove(0);
            proof {
                assert(final(self)@ =~= old(self)@.drop_first());
            }
            Some(v)
        } else if self.second.len() > 0 {
            let v = self.second.remove(0);
            proof {
                assert(final(self)@ =~= old(self)@.drop_first());
            }
            Some(v)
        } else {
            proof {
                assert(self@ =~= Seq::<T>::empty());
            }
            None
        }
    }

    /// The exact count of elements not yet drawn.
    pub fn len(&self) -> (r: usize)
        requires
            self.wf(),
        ensures
            r == self@.len(),
    {
        self.first.len() + self.second.len()
    }
}

/// The argument sequence a compiled closure is invoked on: already-computed
/// values (or the declared types of absent fields), with an exact remaining
/// count.
pub type FunctionArgs = ExactSizeChain<CompiledValueResult>;

/// What kind of argument a function slot accepts.
#[derive(Debug, Clone, Copy, PartialEq, Eq, Structural)]
pub enum FunctionArgKind {
    /// Only a literal constant is allowed.
    Literal,
    /// Only a field (or other variable expression) is allowed.
    Field,
}

/// An argument of one kind was supplied where the other was required.
#[derive(Debug, Clone, Copy, PartialEq, Eq, Structural)]
pub struct FunctionArgKindMismatchError {
    /// The kind the slot accepts.
    pub expected: FunctionArgKind,
    /// The kind the call site supplied.
    pub actual: FunctionArgKind,
}

/// A constant argument had the right type but an invalid value; carries the
/// validator's message.
#[derive(Debug, Clone, PartialEq, Eq)]
pub struct FunctionArgInvalidConstantError {
    msg: String,
}

impl View for FunctionArgInvalidConstantError {
    type V = Seq<char>;

    /// The validator's message.
    closed spec fn view(&self) -> Seq<char> {
        self.msg@
    }
}

impl FunctionArgInvalidConstantError {
    /// Returns a new invalid constant error carrying `msg`.
    pub fn new(msg: String) -> (r: Self)
        ensures
            r@ == msg@,
    {
        FunctionArgInvalidConstantError { msg }
    }
}

impl From<String> for FunctionArgInvalidConstantError {
    /// Wraps the message.
    fn from(msg: String) -> (r: Self) {
        FunctionArgInvalidConstantError { msg }
    }
}

impl vstd::std_specs::convert::FromSpecImpl<String> for FunctionArgInvalidConstantError {
    open spec fn obeys_from_spec() -> bool {
        true
    }

    closed spec fn from_spec(msg: String) -> Self {
        FunctionArgInvalidConstantError { msg }
    }
}

/// Everything that can go wrong while checking one function parameter; no
/// violation is coerced away.
#[derive(Debug, Clone, PartialEq, Eq)]
pub enum FunctionParamError {
    /// The value's type was not among the accepted ones.
    TypeMismatch(TypeMismatchError),
    /// The argument kind differed from the one the slot accepts.
    KindMismatch(FunctionArgKindMismatchError),
    /// A constant's value failed semantic validation.
    InvalidConstant(FunctionArgInvalidConstantError),
}

impl From<TypeMismatchError> for FunctionParamError {
    /// Wraps the error.
    fn from(err: TypeMismatchError) -> (r: Self) {
        FunctionParamError::TypeMismatch(err)
    }
}

impl vstd::std_specs::convert::FromSpecImpl<TypeMismatchError> for FunctionParamError {
    open spec fn obeys_from_spec() -> bool {
        true
    }

    open spec fn from_spec(err: TypeMismatchError) -> Self {
        FunctionParamError::TypeMismatch(err)
    }
}

impl From<FunctionArgKindMismatchError> for FunctionParamError {
    /// Wraps the error.
    fn from(err: FunctionArgKindMismatchError) -> (r: Self) {
        FunctionParamError::KindMismatch(err)
    }
}

impl vstd::std_specs::convert::FromSpecImpl<FunctionArgKindMismatchError> for FunctionParamError {
    open spec fn obeys_from_spec() -> bool {
        true
    }

    open spec fn from_spec(err: FunctionArgKindMismatchError) -> Self {
        FunctionParamError::KindMismatch(err)
    }
}

impl From<FunctionArgInvalidConstantError> for FunctionParamError {
    /// Wraps the error.
    fn from(err: FunctionArgInvalidConstantError) -> (r: Self) {
        FunctionParamError::InvalidConstant(err)
    }
}

impl vstd::std_specs::convert::FromSpecImpl<FunctionArgInvalidConstantError> for FunctionParamError {
    open spec fn obeys_from_spec() -> bool {
        true
    }

    open spec fn from_spec(err: FunctionArgInvalidConstantError) -> Self {
        FunctionParamError::InvalidConstant(err)
    }
}

/// One resolved call argument at check time: a constant literal borrowed from
/// the parse, or the declared type of a field whose value is unknown until
/// evaluation.
#[derive(Debug, Clone, Copy)]
pub enum FunctionParam<'a> {
    /// A constant literal value.
    Constant(&'a RhsValue),
    /// A variable (field) argument, known only by its declared type.
    Variable(Type),
}

/// The kind an argument has, derived from which variant it is.
pub open spec fn spec_arg_kind(p: FunctionParam<'_>) -> FunctionArgKind {
    match p {
        FunctionParam::Constant(_) => FunctionArgKind::Literal,
        FunctionParam::Variable(_) => FunctionArgKind::Field,
    }
}

/// The type an argument carries: the literal's type, or the field's declared
/// type.
pub open spec fn spec_param_type(p: FunctionParam<'_>) -> Type {
    match p {
        FunctionParam::Constant(value) => value.spec_get_type(),
        FunctionParam::Variable(ty) => ty,
    }
}

impl<'a> From<&FunctionParam<'a>> for FunctionArgKind {
    /// The kind an argument has, derived from which variant it is.
    fn from(arg: &FunctionParam<'a>) -> (r: Self) {
        match arg {
            FunctionParam::Constant(_) => FunctionArgKind::Literal,
            FunctionParam::Variable(_) => FunctionArgKind::Field,
        }
    }
}

impl<'a> vstd::std_specs::convert::FromSpecImpl<&FunctionParam<'a>> for FunctionArgKind {
    open spec fn obeys_from_spec() -> bool {
        true
    }

    open spec fn from_spec(arg: &FunctionParam<'a>) -> Self {
        spec_arg_kind(*arg)
    }
}

impl<'a> FunctionParam<'a> {
    /// Returns the kind of this argument.
    pub fn arg_kind(&self) -> (r: FunctionArgKind)
        ensures
            r == spec_arg_kind(*self),
    {
        match self {
            FunctionParam::Constant(_) => FunctionArgKind::Literal,
            FunctionParam::Variable(_) => FunctionArgKind::Field,
        }
    }

    /// Returns the type of this argument.
    pub fn get_type(&self) -> (r: Type)
        ensures
            r == spec_param_type(*self),
    {
        match self {
            FunctionParam::Constant(value) => value.get_type(),
            FunctionParam::Variable(ty) => *ty,
        }
    }

    /// Returns the underlying value if this argument is a constant, otherwise
    /// a kind-mismatch error naming both kinds.
    pub fn as_constant(&self) -> (r: Result<&'a RhsValue, FunctionArgKindMismatchError>)
        ensures
            match *self {
                FunctionParam::Constant(value) => r == Ok::<
                    &'a RhsValue,
                    FunctionArgKindMismatchError,
                >(value),
                FunctionParam::Variable(_) => r == Err::<
                    &'a RhsValue,
                    FunctionArgKindMismatchError,
                >(
                    FunctionArgKindMismatchError {
                        expected: FunctionArgKind::Literal,
                        actual: FunctionArgKind::Field,
                    },
                ),
            },
    {
        match self {
            FunctionParam::Constant(value) => Ok(value),
            FunctionParam::Variable(_) => Err(
                FunctionArgKindMismatchError {
                    expected: FunctionArgKind::Literal,
                    actual: FunctionArgKind::Field,
                },
            ),
        }
    }

    /// Returns the declared type if this argument is a variable, otherwise a
    /// kind-mismatch error naming both kinds.
    pub fn as_variable(&self) -> (r: Result<&Type, FunctionArgKindMismatchError>)
        ensures
            match *self {
                FunctionParam::Variable(ty) => r matches Ok(t) && *t == ty,
                FunctionParam::Constant(_) => r == Err::<&Type, FunctionArgKindMismatchError>(
                    FunctionArgKindMismatchError {
                        expected: FunctionArgKind::Field,
                        actual: FunctionArgKind::Literal,
                    },
                ),
            },
    {
        match self {
            FunctionParam::Variable(ty) => Ok(ty),
            FunctionParam::Constant(_) => Err(
                FunctionArgKindMismatchError {
                    expected: FunctionArgKind::Field,
                    actual: FunctionArgKind::Literal,
                },
            ),
        }
    }

    /// Succeeds exactly when this argument's kind equals `expected_arg_kind`;
    /// otherwise reports a kind mismatch carrying both kinds.
    pub fn expect_arg_kind(&self, expected_arg_kind: FunctionArgKind) -> (r: Result<
        (),
        FunctionParamError,
    >)
        ensures
            spec_arg_kind(*self) == expected_arg_kind ==> r == Ok::<(), FunctionParamError>(()),
            spec_arg_kind(*self) != expected_arg_kind ==> r == Err::<(), FunctionParamError>(
                FunctionParamError::KindMismatch(
                    FunctionArgKindMismatchError {
                        expected: expected_arg_kind,
                        actual: spec_arg_kind(*self),
                    },
                ),
            ),
    {
        let kind = self.arg_kind();
        if kind == expected_arg_kind {
            Ok(())
        } else {
            Err(
                FunctionParamError::KindMismatch(
                    FunctionArgKindMismatchError { expected: expected_arg_kind, actual: kind },
                ),
            )
        }
    }
}

/// The expectations of `s`, in order, with duplicates suppressed: the list a
/// type-mismatch error reports after every candidate in `s` was tried.
pub open spec fn dedup_expected(s: Seq<ExpectedType>) -> Seq<ExpectedType>
    decreases s.len(),
{
    if s.len() == 0 {
        Seq::empty()
    } else {
        let prefix = dedup_expected(s.drop_last());
        if prefix.contains(s.last()) {
            prefix
        } else {
            prefix.push(s.last())
        }
    }
}

impl<'a> FunctionParam<'a> {
    /// Checks this argument's type against the candidate expectations in
    /// order, succeeding on the first structural match; on exhaustion fails
    /// with a type mismatch listing every distinct expectation tried, in
    /// insertion order, plus the actual type.
    pub fn expect_val_type(&self, expected_types: &Vec<ExpectedType>) -> (r: Result<
        (),
        FunctionParamError,
    >)
        ensures
            (r is Ok) <==> (exists|i: int|
                0 <= i < expected_types@.len() && expected_matches(
                    expected_types@[i],
                    spec_param_type(*self),
                )),
            r matches Err(e) ==> (e matches FunctionParamError::TypeMismatch(t)
                && t.actual == spec_param_type(*self) && t.expected@ == dedup_expected(
                expected_types@,
            ) && t.expected.wf()),
    {
        let ty = self.get_type();
        let mut types = ExpectedTypeList::default();
        let n = expected_types.len();
        let mut i: usize = 0;
        while i < n
            invariant
                n == expected_types@.len(),
                0 <= i <= n,
                ty == spec_param_type(*self),
                types.wf(),
                types@ == dedup_expected(expected_types@.take(i as int)),
                forall|k: int|
                    0 <= k < i ==> !expected_matches(expected_types@[k], spec_param_type(*self)),
            decreases n - i,
        {
            let expected_type = expected_types[i];
            if expected_type_matches(&expected_type, &ty) {
                return Ok(());
            }
            proof {
                assert(types@.contains(expected_types@[i as int]) == dedup_expected(
                    expected_types@.take(i as int),
                ).contains(expected_types@[i as int]));
                assert(expected_types@.take(i + 1).drop_last() =~= expected_types@.take(i as int));
            }
            types.insert(expected_type);
            i += 1;
        }
        proof {
            assert(expected_types@.take(n as int) =~= expected_types@);
        }
        Err(
            FunctionParamError::TypeMismatch(TypeMismatchError { expected: types, actual: ty }),
        )
    }

    /// Checks that this argument is a constant whose literal converts to the
    /// requested concrete type, then runs the validator `op` on its value; a
    /// validation message is wrapped into an invalid-constant error. Nothing
    /// is coerced: a variable argument is a kind mismatch, and a literal of
    /// another type a type mismatch listing the requested type.
    pub fn expect_const_value<F: Fn(&'a RhsValue) -> Result<(), String>>(
        &self,
        expected: Type,
        op: F,
    ) -> (r: Result<(), FunctionParamError>)
        requires
            match *self {
                FunctionParam::Constant(v) => v.spec_get_type() == expected ==> call_requires(
                    op,
                    (v,),
                ),
                FunctionParam::Variable(_) => true,
            },
        ensures
            *self matches FunctionParam::Variable(_) ==> r == Err::<(), FunctionParamError>(
                FunctionParamError::KindMismatch(
                    FunctionArgKindMismatchError {
                        expected: FunctionArgKind::Literal,
                        actual: FunctionArgKind::Field,
                    },
                ),
            ),
            (*self matches FunctionParam::Constant(v) && v.spec_get_type() != expected) ==> (
            r matches Err(FunctionParamError::TypeMismatch(t)) && t.actual == spec_param_type(
                *self,
            ) && t.expected@ == seq![ExpectedType::Type(expected)]),
            (*self matches FunctionParam::Constant(v) && v.spec_get_type() == expected) ==> (
            r is Ok || r matches Err(FunctionParamError::InvalidConstant(_))),
            r is Ok ==> (*self matches FunctionParam::Constant(v) && v.spec_get_type() == expected
                && call_ensures(op, (v,), Ok(()))),
            r matches Err(FunctionParamError::InvalidConstant(e)) ==> (
            *self matches FunctionParam::Constant(v) && exists|m: String|
                call_ensures(op, (v,), Err(m)) && e@ == m@),
    {
        match *self {
            FunctionParam::Constant(value) => {
                let ty = value.get_type();
                if ty == expected {
                    let res = op(value);
                    match res {
                        Ok(()) => {
                            proof {
                                assert(res == Ok::<(), String>(res->Ok_0));
                            }
                            Ok(())
                        },
                        Err(msg) => {
                            let ghost m0 = msg;
                            let e = FunctionArgInvalidConstantError { msg };
                            proof {
                                assert(e@ == m0@);
                                assert(call_ensures(op, (value,), Err::<(), String>(m0)));
                            }
                            Err(FunctionParamError::InvalidConstant(e))
                        },
                    }
                } else {
                    let mut types = ExpectedTypeList::new();
                    types.insert(ExpectedType::Type(expected));
                    proof {
                        assert(types@ =~= seq![ExpectedType::Type(expected)]);
                    }
                    Err(
                        FunctionParamError::TypeMismatch(
                            TypeMismatchError { expected: types, actual: ty },
                        ),
                    )
                }
            },
            FunctionParam::Variable(_) => Err(
                FunctionParamError::KindMismatch(
                    FunctionArgKindMismatchError {
                        expected: FunctionArgKind::Literal,
                        actual: FunctionArgKind::Field,
                    },
                ),
            ),
        }
    }
}

} // verus!

verus! {

/// Whether a call site that has had `accepted` arguments checked may hand one
/// more to a definition declaring `mandatory` mandatory slots and `limit`
/// optional slots (`None` meaning unlimited).
pub open spec fn spec_can_accept(mandatory: usize, limit: Option<usize>, accepted: nat) -> bool {
    match limit {
        Some(l) => accepted < mandatory + l,
        None => true,
    }
}

/// Whether an accepted argument list of length `accepted` may be compiled
/// against a definition declaring `mandatory` mandatory slots and `limit`
/// optional slots: every mandatory slot is covered and no declared maximum is
/// exceeded.
pub open spec fn spec_compile_accepts(mandatory: usize, limit: Option<usize>, accepted: nat) -> bool {
    mandatory <= accepted && match limit {
        Some(l) => accepted <= mandatory + l,
        None => true,
    }
}

/// Law: a call site that supplied fewer arguments than the mandatory count
/// cannot be compiled at all — no such list satisfies `compile`'s
/// precondition — so under-application is rejected before compilation and
/// never reaches an invocation.
pub proof fn lemma_under_application_rejected(mandatory: usize, limit: Option<usize>, accepted: nat)
    requires
        accepted < mandatory,
    ensures
        !spec_compile_accepts(mandatory, limit, accepted),
{
}

/// The extension point a host implements to register a callable function: a
/// per-call-site state machine that checks one lexed argument at a time,
/// reports its return type, declares its arity, and finally compiles the
/// checked call into an executable artifact. The parser enforces the declared
/// arity: it never asks to check an argument past the declared maximum and
/// fails by itself when the minimum is not met.
pub trait FunctionDefinition {
    /// The executable artifact `compile` produces.
    type Compiled;

    /// Declared count of mandatory arguments.
    spec fn spec_mandatory_count(&self) -> usize;

    /// Declared bound on optional arguments, `None` for unlimited.
    spec fn spec_optional_limit(&self) -> Option<usize>;

    /// The context this definition creates when a call-site parse begins.
    spec fn spec_context(&self) -> Option<FunctionDefinitionContext>;

    /// Whether checking `next` succeeds after the accepted `prefix`.
    spec fn check_param_ok(&self, prefix: Seq<FunctionParam<'_>>, next: FunctionParam<'_>) -> bool;

    /// The error `check_param` reports when checking `next` fails.
    spec fn check_param_err(
        &self,
        prefix: Seq<FunctionParam<'_>>,
        next: FunctionParam<'_>,
        e: FunctionParamError,
    ) -> bool;

    /// The context value after checking one parameter.
    spec fn ctx_after_check(
        &self,
        prefix: Seq<FunctionParam<'_>>,
        next: FunctionParam<'_>,
        before: Option<FunctionDefinitionContext>,
    ) -> Option<FunctionDefinitionContext>;

    /// The return type of a call with the given checked parameters.
    spec fn return_type_spec(
        &self,
        params: Seq<FunctionParam<'_>>,
        ctx: Option<FunctionDefinitionContext>,
    ) -> Type;

    /// What `compile` produces from the checked parameters and the context.
    spec fn compiled_matches(
        &self,
        params: Seq<FunctionParam<'_>>,
        ctx: Option<FunctionDefinitionContext>,
        compiled: &Self::Compiled,
    ) -> bool;

    /// Creates the per-call-site context, if this definition uses one.
    fn context(&self) -> (r: Option<FunctionDefinitionContext>)
        ensures
            r == self.spec_context(),
    ;

    /// Given the already accepted `prefix`, checks that `next_param` is
    /// correct for the next slot, threading the optional context through.
    fn check_param<'a>(
        &self,
        prefix: &Vec<FunctionParam<'a>>,
        next_param: &FunctionParam<'a>,
        ctx: &mut Option<FunctionDefinitionContext>,
    ) -> (r: Result<(), FunctionParamError>)
        requires
            spec_can_accept(
                self.spec_mandatory_count(),
                self.spec_optional_limit(),
                prefix@.len() as nat,
            ),
        ensures
            (r is Ok) <==> self.check_param_ok(prefix@, *next_param),
            r matches Err(e) ==> self.check_param_err(prefix@, *next_param, e),
            *final(ctx) == self.ctx_after_check(prefix@, *next_param, *old(ctx)),
    ;

    /// The return type of a call with the given checked parameters.
    fn return_type<'a>(
        &self,
        params: &Vec<FunctionParam<'a>>,
        ctx: &Option<FunctionDefinitionContext>,
    ) -> (r: Type)
        ensures
            r == self.return_type_spec(params@, *ctx),
    ;

    /// The declared count of mandatory arguments and bound on optional ones.
    fn arg_count(&self) -> (r: (usize, Option<usize>))
        ensures
            r == (self.spec_mandatory_count(), self.spec_optional_limit()),
    ;

    /// Compiles the checked call, consuming the context, into the executable
    /// artifact the evaluation engine stores in its tree.
    fn compile<'a>(
        &self,
        params: &Vec<FunctionParam<'a>>,
        ctx: Option<FunctionDefinitionContext>,
    ) -> (r: Self::Compiled)
        requires
            spec_compile_accepts(
                self.spec_mandatory_count(),
                self.spec_optional_limit(),
                params@.len() as nat,
            ),
        ensures
            self.compiled_matches(params@, ctx, &r),
    ;
}

/// Wrapper around the host-supplied callable providing the runtime
/// implementation of a simple function; the callable receives the exact-length
/// chain of explicit arguments followed by compiled-in defaults.
#[derive(Debug, Clone, Copy, PartialEq, Eq)]
pub struct SimpleFunctionImpl<F>(pub F);

impl<F> SimpleFunctionImpl<F> {
    /// Creates a new wrapper around the callable.
    pub fn new(func: F) -> (r: Self)
        ensures
            r == SimpleFunctionImpl(func),
    {
        SimpleFunctionImpl(func)
    }
}

/// Defines a mandatory argument slot of a simple function.
#[derive(Debug, Clone, Copy, PartialEq, Eq, Structural)]
pub struct SimpleFunctionParam {
    /// How the argument can be specified when calling the function.
    pub arg_kind: FunctionArgKind,
    /// The type its value must have.
    pub val_type: Type,
}

/// Defines an optional argument slot of a simple function; its expected type
/// is the type of its default value.
#[derive(Debug)]
pub struct SimpleFunctionOptParam {
    /// How the argument can be specified when calling the function.
    pub arg_kind: FunctionArgKind,
    /// The value spliced in when the call site omits the argument.
    pub default_value: LhsValue,
}

/// The common-case implementation of [`FunctionDefinition`]: an ordered list
/// of typed mandatory slots, an ordered list of optional slots with default
/// values, a constant return type, and a host-supplied callable as the body.
/// Mandatory slots always precede optional ones in call order.
#[derive(Debug)]
pub struct SimpleFunctionDefinition<F> {
    /// The mandatory argument slots.
    pub params: Vec<SimpleFunctionParam>,
    /// The optional argument slots, after the mandatory ones.
    pub opt_params: Vec<SimpleFunctionOptParam>,
    /// The declared return type.
    pub return_type: Type,
    /// The callable invoked at evaluation time.
    pub implementation: SimpleFunctionImpl<F>,
}

impl<F> SimpleFunctionDefinition<F> {
    /// The total count of declared slots.
    pub open spec fn total_slots(&self) -> int {
        self.params@.len() + self.opt_params@.len() as int
    }

    /// The kind the slot at `index` accepts.
    pub open spec fn slot_kind(&self, index: int) -> FunctionArgKind {
        if index < self.params@.len() {
            self.params@[index].arg_kind
        } else {
            self.opt_params@[index - self.params@.len()].arg_kind
        }
    }

    /// The type the slot at `index` accepts: a mandatory slot's declared
    /// type, or an optional slot's default-value type.
    pub open spec fn slot_type(&self, index: int) -> Type {
        if index < self.params@.len() {
            self.params@[index].val_type
        } else {
            self.opt_params@[index - self.params@.len()].default_value.spec_get_type()
        }
    }
}

/// The executable artifact a simple function compiles to: the callable, the
/// exact count of explicit arguments the call site was compiled for, and the
/// defaults for every optional slot the call site did not supply, cloned once
/// at compile time.
pub struct CompiledSimpleExpr<F> {
    /// The exact count of explicit arguments each invocation must supply.
    pub params_count: usize,
    /// Defaults for the optional slots the call site did not supply.
    pub default_args: Vec<CompiledValueResult>,
    /// The host-supplied callable.
    pub implementation: SimpleFunctionImpl<F>,
}

impl<F: Fn(ExactSizeChain<CompiledValueResult>) -> Option<LhsValue>> CompiledSimpleExpr<F> {
    /// Invokes the compiled call on the explicit arguments: the callable
    /// observes exactly those arguments followed by the compiled-in defaults,
    /// as one exact-length chain.
    pub fn call(&self, args: Vec<CompiledValueResult>) -> (r: Option<LhsValue>)
        requires
            args@.len() == self.params_count,
            args@.len() + self.default_args@.len() <= usize::MAX,
            forall|chain: ExactSizeChain<CompiledValueResult>|
                (chain@.len() == args@.len() + self.default_args@.len() && args_view(chain@)
                    == args_view(args@) + args_view(self.default_args@)) ==> call_requires(
                    self.implementation.0,
                    (chain,),
                ),
        ensures
            exists|chain: ExactSizeChain<CompiledValueResult>|
                chain@.len() == args@.len() + self.default_args@.len() && args_view(chain@)
                    == args_view(args@) + args_view(self.default_args@) && call_ensures(
                    self.implementation.0,
                    (chain,),
                    r,
                ),
    {
        let ghost args0 = args@;
        let defaults = clone_args(&self.default_args);
        let chain = ExactSizeChain::new(args, defaults);
        proof {
            assert(args_view(chain@) =~= args_view(args0) + args_view(defaults@));
        }
        let ghost chain0 = chain;
        let r = (self.implementation.0)(chain);
        proof {
            assert(chain0@.len() == args0.len() + self.default_args@.len());
            assert(args_view(chain0@) == args_view(args0) + args_view(self.default_args@));
        }
        r
    }
}

impl<F: Copy + Fn(ExactSizeChain<CompiledValueResult>) -> Option<LhsValue>> FunctionDefinition for SimpleFunctionDefinition<F> {
    type Compiled = CompiledSimpleExpr<F>;

    open spec fn spec_mandatory_count(&self) -> usize {
        self.params@.len() as usize
    }

    open spec fn spec_optional_limit(&self) -> Option<usize> {
        Some(self.opt_params@.len() as usize)
    }

    open spec fn spec_context(&self) -> Option<FunctionDefinitionContext> {
        None
    }

    open spec fn check_param_ok(
        &self,
        prefix: Seq<FunctionParam<'_>>,
        next: FunctionParam<'_>,
    ) -> bool {
        let idx = prefix.len() as int;
        spec_arg_kind(next) == self.slot_kind(idx) && spec_param_type(next) == self.slot_type(idx)
    }

    open spec fn check_param_err(
        &self,
        prefix: Seq<FunctionParam<'_>>,
        next: FunctionParam<'_>,
        e: FunctionParamError,
    ) -> bool {
        let idx = prefix.len() as int;
        if spec_arg_kind(next) != self.slot_kind(idx) {
            e == FunctionParamError::KindMismatch(
                FunctionArgKindMismatchError {
                    expected: self.slot_kind(idx),
                    actual: spec_arg_kind(next),
                },
            )
        } else {
            e matches FunctionParamError::TypeMismatch(t) && t.actual == spec_param_type(next)
                && t.expected@ == seq![ExpectedType::Type(self.slot_type(idx))]
        }
    }

    open spec fn ctx_after_check(
        &self,
        prefix: Seq<FunctionParam<'_>>,
        next: FunctionParam<'_>,
        before: Option<FunctionDefinitionContext>,
    ) -> Option<FunctionDefinitionContext> {
        before
    }

    open spec fn return_type_spec(
        &self,
        params: Seq<FunctionParam<'_>>,
        ctx: Option<FunctionDefinitionContext>,
    ) -> Type {
        self.return_type
    }

    open spec fn compiled_matches(
        &self,
        params: Seq<FunctionParam<'_>>,
        ctx: Option<FunctionDefinitionContext>,
        compiled: &Self::Compiled,
    ) -> bool {
        let supplied_opt = params.len() - self.params@.len();
        &&& compiled.params_count == params.len()
        &&& compiled.default_args@.len() == self.opt_params@.len() - supplied_opt
        &&& forall|k: int|
            0 <= k < compiled.default_args@.len() ==> arg_view(#[trigger] compiled.default_args@[k])
                == Ok::<crate::types::LhsValueV, Type>(
                self.opt_params@[supplied_opt + k].default_value@,
            )
        &&& compiled.implementation == self.implementation
    }

    fn context(&self) -> (r: Option<FunctionDefinitionContext>) {
        None
    }

    fn check_param<'a>(
        &self,
        prefix: &Vec<FunctionParam<'a>>,
        next_param: &FunctionParam<'a>,
        ctx: &mut Option<FunctionDefinitionContext>,
    ) -> (r: Result<(), FunctionParamError>) {
        let index = prefix.len();
        let (slot_kind, slot_type) = if index < self.params.len() {
            let param = &self.params[index];
            (param.arg_kind, param.val_type)
        } else {
            let opt_param = &self.opt_params[index - self.params.len()];
            (opt_param.arg_kind, opt_param.default_value.get_type())
        };
        match next_param.expect_arg_kind(slot_kind) {
            Ok(()) => {},
            Err(e) => {
                return Err(e);
            },
        }
        let mut tys: Vec<ExpectedType> = Vec::new();
        tys.push(ExpectedType::Type(slot_type));
        proof {
            assert(tys@.drop_last() =~= Seq::<ExpectedType>::empty());
            assert(dedup_expected(Seq::<ExpectedType>::empty()) =~= Seq::<ExpectedType>::empty());
            assert(dedup_expected(tys@) =~= seq![ExpectedType::Type(slot_type)]);
        }
        next_param.expect_val_type(&tys)
    }

    fn return_type<'a>(
        &self,
        params: &Vec<FunctionParam<'a>>,
        ctx: &Option<FunctionDefinitionContext>,
    ) -> (r: Type) {
        self.return_type
    }

    fn arg_count(&self) -> (r: (usize, Option<usize>)) {
        (self.params.len(), Some(self.opt_params.len()))
    }

    fn compile<'a>(
        &self,
        params: &Vec<FunctionParam<'a>>,
        ctx: Option<FunctionDefinitionContext>,
    ) -> (r: Self::Compiled) {
        let params_count = params.len();
        let supplied_opt = params_count - self.params.len();
        let total_opt = self.opt_params.len();
        let mut default_args: Vec<CompiledValueResult> = Vec::new();
        let mut j: usize = supplied_opt;
        while j < total_opt
            invariant
                total_opt == self.opt_params@.len(),
                supplied_opt <= j <= total_opt,
                default_args@.len() == j - supplied_opt,
                forall|k: int|
                    0 <= k < default_args@.len() ==> arg_view(#[trigger] default_args@[k])
                        == Ok::<crate::types::LhsValueV, Type>(
                        self.opt_params@[supplied_opt + k].default_value@,
                    ),
            decreases total_opt - j,
        {
            default_args.push(Ok(self.opt_params[j].default_value.clone()));
            j += 1;
        }
        CompiledSimpleExpr { params_count, default_args, implementation: self.implementation }
    }
}

} // verus!

verus! {

/// Law: a compiled simple call is invoked on exactly the argument count it
/// was compiled for, which is the mandatory count plus the count of
/// explicitly supplied optional arguments; and the callable behind it then
/// observes every declared slot filled, the missing optional ones by their
/// compiled-in defaults. A call site that supplied fewer than the mandatory
/// count cannot have been compiled at all: `compile` requires the accepted
/// list to cover every mandatory slot, and every invocation requires the
/// compiled-for count, so under-application is rejected before compilation,
/// never at invocation.
pub proof fn lemma_compiled_arity<'a, F: Copy + Fn(ExactSizeChain<CompiledValueResult>) -> Option<
    LhsValue,
>>(
    def: &SimpleFunctionDefinition<F>,
    params: Seq<FunctionParam<'a>>,
    ctx: Option<FunctionDefinitionContext>,
    compiled: &CompiledSimpleExpr<F>,
    args: Seq<CompiledValueResult>,
)
    requires
        def.params@.len() <= params.len() <= def.total_slots(),
        def.compiled_matches(params, ctx, compiled),
        args.len() == compiled.params_count,
    ensures
        args.len() == def.params@.len() + (params.len() - def.params@.len()),
        args.len() + compiled.default_args@.len() == def.total_slots(),
{
}

} // verus!
