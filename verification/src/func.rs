//! Host functions: native closures behind one calling convention, and the
//! conversions between native values and tagged values at the call boundary.

use vstd::prelude::*;
use std::marker::PhantomData;
use crate::elements::{FunctionType, Signature, ValueType};
use crate::error::Error;
use crate::value::RuntimeValue;

verus! {

/// The first argument, from `from` on, whose type is not the one that
/// `params` asks for at its place.
pub open spec fn first_mismatch(
    params: Seq<ValueType>,
    args: Seq<RuntimeValue>,
    from: int,
) -> Option<int>
    decreases params.len() - from,
{
    if from < 0 || from >= params.len() || from >= args.len() {
        None
    } else if args[from].spec_value_type() != params[from] {
        Some(from)
    } else {
        first_mismatch(params, args, from + 1)
    }
}

/// How `args` break the calling convention of a function with parameters
/// `params`, if they do: by their number, or else by the type of the first
/// argument that does not fit.
pub open spec fn argument_fault(params: Seq<ValueType>, args: Seq<RuntimeValue>) -> Option<Error> {
    if args.len() != params.len() {
        Some(Error::ArgumentCount { arity: params.len() as usize, given: args.len() as usize })
    } else {
        match first_mismatch(params, args, 0) {
            Some(i) => Some(
                Error::ArgumentType {
                    index: i as usize,
                    expected: params[i],
                    actual: args[i].spec_value_type(),
                },
            ),
            None => None,
        }
    }
}

/// What `first_mismatch` finds is the least index, from `from` on, at which
/// the type of the argument is not the type of the parameter. It finds
/// nothing only where every argument fits.
pub proof fn lemma_first_mismatch(params: Seq<ValueType>, args: Seq<RuntimeValue>, from: int)
    requires
        0 <= from,
        params.len() == args.len(),
    ensures
        match first_mismatch(params, args, from) {
            Some(i) => {
                &&& from <= i < params.len()
                &&& args[i].spec_value_type() != params[i]
                &&& forall|j: int| from <= j < i ==> args[j].spec_value_type() == params[j]
            },
            None => forall|j: int|
                from <= j < params.len() ==> args[j].spec_value_type() == params[j],
        },
    decreases params.len() - from,
{
    if from < params.len() {
        lemma_first_mismatch(params, args, from + 1);
    }
}

/// Holds `args` against `params`: their number, then the type of each.
pub fn check_args(params: &[ValueType], args: &[RuntimeValue]) -> (r: Result<(), Error>)
    ensures
        r == (match argument_fault(params@, args@) {
            Some(e) => Err::<(), Error>(e),
            None => Ok::<(), Error>(()),
        }),
{
    if args.len() != params.len() {
        return Err(Error::ArgumentCount { arity: params.len(), given: args.len() });
    }
    let mut i: usize = 0;
    while i < params.len()
        invariant
            i <= params@.len(),
            params@.len() == args@.len(),
            first_mismatch(params@, args@, 0) == first_mismatch(params@, args@, i as int),
        decreases params@.len() - i,
    {
        let actual = args[i].value_type();
        if actual != params[i] {
            return Err(Error::ArgumentType { index: i, expected: params[i], actual });
        }
        i = i + 1;
    }
    Ok(())
}

/// The uniform calling convention of host functions: whatever the native
/// types of a function are, the interpreter calls it with the host state and
/// a sequence of tagged values.
pub trait AnyFunc<St> {
    /// The signature that the function goes by.
    spec fn signature(&self) -> Signature;

    /// `r` is something that the function may return when it runs on the
    /// state behind `s` with `args`, which fit its signature. Where `s` ends
    /// up is part of what `s` is.
    spec fn outcome(
        &self,
        s: &mut St,
        args: Seq<RuntimeValue>,
        r: Result<Option<RuntimeValue>, Error>,
    ) -> bool;

    /// Calls the function on `state` with `args`.
    ///
    /// Arguments that do not fit the signature are refused before anything
    /// runs, and the state stays as it was. Otherwise the function runs on
    /// the state, and a value that comes back has the type that the signature
    /// promises.
    fn call_as_any(&self, state: &mut St, args: &[RuntimeValue]) -> (r: Result<
        Option<RuntimeValue>,
        Error,
    >)
        ensures
            match argument_fault(self.signature().params, args@) {
                Some(e) => r == Err::<Option<RuntimeValue>, Error>(e) && *final(state) == *old(
                    state,
                ),
                None => {
                    &&& exists|s: &mut St|
                        *s == *old(state) && *final(s) == *final(state) && #[trigger] self.outcome(
                            s,
                            args@,
                            r,
                        )
                    &&& r matches Ok(Some(v)) ==> self.signature().return_type == Some(
                        v.spec_value_type(),
                    )
                },
            },
    ;
}

/// A native type that can be the parameter of a host function.
pub trait FromArg: Sized {
    /// The value type that a parameter of this native type has.
    spec fn param_type() -> ValueType;

    /// The native value that a tagged value of that type carries.
    spec fn decode(arg: RuntimeValue) -> Self;

    /// Unpacks a tagged value whose tag fits this native type.
    fn from_arg(arg: &RuntimeValue) -> (r: Self)
        requires
            arg.spec_value_type() == Self::param_type(),
        ensures
            r == Self::decode(*arg),
    ;

    /// The value type that a parameter of this native type has.
    fn value_type() -> (t: ValueType)
        ensures
            t == Self::param_type(),
    ;
}

impl FromArg for i32 {
    open spec fn param_type() -> ValueType {
        ValueType::I32
    }

    open spec fn decode(arg: RuntimeValue) -> i32 {
        match arg {
            RuntimeValue::I32(v) => v,
            _ => 0,
        }
    }

    fn from_arg(arg: &RuntimeValue) -> (r: i32) {
        match arg {
            RuntimeValue::I32(v) => *v,
            _ => unreached(),
        }
    }

    fn value_type() -> (t: ValueType) {
        ValueType::I32
    }
}

impl FromArg for i64 {
    open spec fn param_type() -> ValueType {
        ValueType::I64
    }

    open spec fn decode(arg: RuntimeValue) -> i64 {
        match arg {
            RuntimeValue::I64(v) => v,
            _ => 0,
        }
    }

    fn from_arg(arg: &RuntimeValue) -> (r: i64) {
        match arg {
            RuntimeValue::I64(v) => *v,
            _ => unreached(),
        }
    }

    fn value_type() -> (t: ValueType) {
        ValueType::I64
    }
}

/// A native type that can be what a host function returns.
pub trait AsReturnVal: Sized {
    /// The value type that a result of this native type has, or none where
    /// the native type stands for "no value".
    spec fn result_type() -> Option<ValueType>;

    /// The tagged value that carries a native value, or none.
    spec fn encode(self) -> Option<RuntimeValue>;

    /// Packs a native value. What comes out has the type that `value_type`
    /// reports, and nothing comes out where it reports none.
    fn as_return_val(self) -> (r: Option<RuntimeValue>)
        ensures
            r == self.encode(),
            match r {
                Some(v) => Self::result_type() == Some(v.spec_value_type()),
                None => Self::result_type() is None,
            },
    ;

    /// The value type that a result of this native type has, if any.
    fn value_type() -> (t: Option<ValueType>)
        ensures
            t == Self::result_type(),
    ;
}

impl AsReturnVal for i32 {
    open spec fn result_type() -> Option<ValueType> {
        Some(ValueType::I32)
    }

    open spec fn encode(self) -> Option<RuntimeValue> {
        Some(RuntimeValue::I32(self))
    }

    fn as_return_val(self) -> (r: Option<RuntimeValue>) {
        Some(RuntimeValue::I32(self))
    }

    fn value_type() -> (t: Option<ValueType>) {
        Some(ValueType::I32)
    }
}

impl AsReturnVal for i64 {
    open spec fn result_type() -> Option<ValueType> {
        Some(ValueType::I64)
    }

    open spec fn encode(self) -> Option<RuntimeValue> {
        Some(RuntimeValue::I64(self))
    }

    fn as_return_val(self) -> (r: Option<RuntimeValue>) {
        Some(RuntimeValue::I64(self))
    }

    fn value_type() -> (t: Option<ValueType>) {
        Some(ValueType::I64)
    }
}

impl AsReturnVal for () {
    open spec fn result_type() -> Option<ValueType> {
        None
    }

    open spec fn encode(self) -> Option<RuntimeValue> {
        None
    }

    fn as_return_val(self) -> (r: Option<RuntimeValue>) {
        None
    }

    fn value_type() -> (t: Option<ValueType>) {
        None
    }
}

/// A native scalar type stands for the same value type as a parameter and
/// as a result, and a value that is packed and unpacked again is the value
/// itself.
pub proof fn lemma_signature_symmetry(a: i32, b: i64)
    ensures
        <i32 as AsReturnVal>::result_type() == Some(<i32 as FromArg>::param_type()),
        <i64 as AsReturnVal>::result_type() == Some(<i64 as FromArg>::param_type()),
        a.encode() matches Some(v) && <i32 as FromArg>::decode(v) == a,
        b.encode() matches Some(v) && <i64 as FromArg>::decode(v) == b,
{
}

/// What the interpreter gets back when a closure has returned `result`.
pub open spec fn returned<Ret: AsReturnVal>(result: Result<Option<Ret>, Error>) -> Result<
    Option<RuntimeValue>,
    Error,
> {
    match result {
        Ok(Some(v)) => Ok(v.encode()),
        Ok(None) => Ok(None),
        Err(e) => Err(e),
    }
}

/// The signature of a host function without parameters whose native result
/// type is `Ret`.
pub open spec fn signature0<Ret: AsReturnVal>() -> Signature {
    Signature { params: Seq::empty(), return_type: Ret::result_type() }
}

/// The signature of a host function whose native parameter type is `A1` and
/// whose native result type is `Ret`.
pub open spec fn signature1<Ret: AsReturnVal, A1: FromArg>() -> Signature {
    Signature { params: seq![A1::param_type()], return_type: Ret::result_type() }
}

/// The signature of a host function whose native parameter types are `A1`
/// and `A2`, in this order, and whose native result type is `Ret`.
pub open spec fn signature2<Ret: AsReturnVal, A1: FromArg, A2: FromArg>() -> Signature {
    Signature { params: seq![A1::param_type(), A2::param_type()], return_type: Ret::result_type() }
}

/// `r` is what the interpreter gets back when the closure `f`, which has no
/// parameter, runs on the state behind `s`.
pub open spec fn outcome0<Cl: Fn(&mut St) -> Result<Option<Ret>, Error>, St, Ret: AsReturnVal>(
    f: Cl,
    s: &mut St,
    r: Result<Option<RuntimeValue>, Error>,
) -> bool {
    exists|result: Result<Option<Ret>, Error>| #[trigger]
        call_ensures(f, (s,), result) && r == returned(result)
}

/// `r` is what the interpreter gets back when the closure `f` runs on the
/// state behind `s` with the one argument unpacked.
pub open spec fn outcome1<
    Cl: Fn(&mut St, A1) -> Result<Option<Ret>, Error>,
    St,
    Ret: AsReturnVal,
    A1: FromArg,
>(f: Cl, s: &mut St, args: Seq<RuntimeValue>, r: Result<Option<RuntimeValue>, Error>) -> bool {
    exists|result: Result<Option<Ret>, Error>| #[trigger]
        call_ensures(f, (s, A1::decode(args[0])), result) && r == returned(result)
}

/// `r` is what the interpreter gets back when the closure `f` runs on the
/// state behind `s` with the two arguments unpacked, in their order.
pub open spec fn outcome2<
    Cl: Fn(&mut St, A1, A2) -> Result<Option<Ret>, Error>,
    St,
    Ret: AsReturnVal,
    A1: FromArg,
    A2: FromArg,
>(f: Cl, s: &mut St, args: Seq<RuntimeValue>, r: Result<Option<RuntimeValue>, Error>) -> bool {
    exists|result: Result<Option<Ret>, Error>| #[trigger]
        call_ensures(f, (s, A1::decode(args[0]), A2::decode(args[1])), result) && r == returned(
            result,
        )
}

/// A native closure without parameters over the host state `St`, behind the
/// uniform calling convention.
#[verifier::reject_recursive_types(St)]
#[verifier::reject_recursive_types(Ret)]
pub struct Func0<
    Cl: Fn(&mut St) -> Result<Option<Ret>, Error>,
    St,
    Ret: AsReturnVal,
> {
    closure: Cl,
    _marker: PhantomData<(St, Ret)>,
}

impl<
    Cl: Fn(&mut St) -> Result<Option<Ret>, Error>,
    St,
    Ret: AsReturnVal,
> Func0<Cl, St, Ret> {
    /// The closure can be called on every state.
    #[verifier::type_invariant]
    spec fn callable(self) -> bool {
        forall|s: &mut St| call_requires(self.closure, (s,))
    }

    /// The closure that this wrapper holds.
    pub closed spec fn closure(self) -> Cl {
        self.closure
    }

    /// Wraps `closure`, which must accept every state.
    pub fn new(closure: Cl) -> (r: Self)
        requires
            forall|s: &mut St| call_requires(closure, (s,)),
        ensures
            r.closure() == closure,
    {
        Func0 { closure, _marker: PhantomData }
    }

    /// The function type that the interpreter sees for a wrapper of this
    /// type. It depends on the native types alone, not on any closure.
    pub fn derive_func_type() -> (r: FunctionType)
        ensures
            r@ == signature0::<Ret>(),
    {
        FunctionType::new(Vec::new(), Ret::value_type())
    }
}

impl<
    Cl: Fn(&mut St) -> Result<Option<Ret>, Error>,
    St,
    Ret: AsReturnVal,
> AnyFunc<St> for Func0<Cl, St, Ret> {
    open spec fn signature(&self) -> Signature {
        signature0::<Ret>()
    }

    open spec fn outcome(
        &self,
        s: &mut St,
        args: Seq<RuntimeValue>,
        r: Result<Option<RuntimeValue>, Error>,
    ) -> bool {
        outcome0(self.closure(), s, r)
    }

    /// Calls the closure on `state` and packs what it returns. A failure of the closure comes back unchanged.
    fn call_as_any(&self, state: &mut St, args: &[RuntimeValue]) -> (r: Result<
        Option<RuntimeValue>,
        Error,
    >)
        ensures
            match argument_fault(signature0::<Ret>().params, args@) {
                Some(e) => r == Err::<Option<RuntimeValue>, Error>(e) && *final(state) == *old(
                    state,
                ),
                None => exists|s: &mut St|
                    *s == *old(state) && *final(s) == *final(state)
                        && #[trigger] outcome0(self.closure(), s, r),
            },
    {
        proof {
            use_type_invariant(self);
        }
        let func_type = Self::derive_func_type();
        match check_args(func_type.params.as_slice(), args) {
            Err(e) => {
                return Err(e);
            },
            Ok(()) => {},
        }
        let result = (self.closure)(state);
        let r = match result {
            Ok(Some(v)) => Ok(v.as_return_val()),
            Ok(None) => Ok(None),
            Err(e) => Err(e),
        };
        proof {
            let s = choose|s: &mut St|
                *s == *old(state) && *final(s) == *state && #[trigger] call_ensures(
                    self.closure,
                    (s,),
                    result,
                );
            assert(self.outcome(s, args@, r));
        }
        r
    }
}

/// A native closure of one parameter over the host state `St`, behind the
/// uniform calling convention.
#[verifier::reject_recursive_types(St)]
#[verifier::reject_recursive_types(Ret)]
#[verifier::reject_recursive_types(A1)]
pub struct Func1<
    Cl: Fn(&mut St, A1) -> Result<Option<Ret>, Error>,
    St,
    Ret: AsReturnVal,
    A1: FromArg,
> {
    closure: Cl,
    _marker: PhantomData<(St, Ret, A1)>,
}

impl<
    Cl: Fn(&mut St, A1) -> Result<Option<Ret>, Error>,
    St,
    Ret: AsReturnVal,
    A1: FromArg,
> Func1<Cl, St, Ret, A1> {
    /// The closure can be called on every state and every argument.
    #[verifier::type_invariant]
    spec fn callable(self) -> bool {
        forall|s: &mut St, a1: A1| call_requires(self.closure, (s, a1))
    }

    /// The closure that this wrapper holds.
    pub closed spec fn closure(self) -> Cl {
        self.closure
    }

    /// Wraps `closure`, which must accept every state and every argument.
    pub fn new(closure: Cl) -> (r: Self)
        requires
            forall|s: &mut St, a1: A1| call_requires(closure, (s, a1)),
        ensures
            r.closure() == closure,
    {
        Func1 { closure, _marker: PhantomData }
    }

    /// The function type that the interpreter sees for a wrapper of this
    /// type. It depends on the native types alone, not on any closure.
    pub fn derive_func_type() -> (r: FunctionType)
        ensures
            r@ == signature1::<Ret, A1>(),
    {
        let mut params: Vec<ValueType> = Vec::new();
        params.push(A1::value_type());
        FunctionType::new(params, Ret::value_type())
    }
}

impl<
    Cl: Fn(&mut St, A1) -> Result<Option<Ret>, Error>,
    St,
    Ret: AsReturnVal,
    A1: FromArg,
> AnyFunc<St> for Func1<Cl, St, Ret, A1> {
    open spec fn signature(&self) -> Signature {
        signature1::<Ret, A1>()
    }

    open spec fn outcome(
        &self,
        s: &mut St,
        args: Seq<RuntimeValue>,
        r: Result<Option<RuntimeValue>, Error>,
    ) -> bool {
        outcome1(self.closure(), s, args, r)
    }

    /// Calls the closure on `state` with the one argument unpacked, and packs
    /// what it returns. A failure of the closure comes back unchanged.
    fn call_as_any(&self, state: &mut St, args: &[RuntimeValue]) -> (r: Result<
        Option<RuntimeValue>,
        Error,
    >)
        ensures
            match argument_fault(signature1::<Ret, A1>().params, args@) {
                Some(e) => r == Err::<Option<RuntimeValue>, Error>(e) && *final(state) == *old(
                    state,
                ),
                None => exists|s: &mut St|
                    *s == *old(state) && *final(s) == *final(state)
                        && #[trigger] outcome1(self.closure(), s, args@, r),
            },
    {
        proof {
            use_type_invariant(self);
        }
        let func_type = Self::derive_func_type();
        match check_args(func_type.params.as_slice(), args) {
            Err(e) => {
                return Err(e);
            },
            Ok(()) => {},
        }
        proof {
            lemma_first_mismatch(func_type.params@, args@, 0);
        }
        let a1 = A1::from_arg(&args[0]);
        let result = (self.closure)(state, a1);
        let r = match result {
            Ok(Some(v)) => Ok(v.as_return_val()),
            Ok(None) => Ok(None),
            Err(e) => Err(e),
        };
        proof {
            let s = choose|s: &mut St|
                *s == *old(state) && *final(s) == *state && #[trigger] call_ensures(
                    self.closure,
                    (s, a1),
                    result,
                );
            assert(self.outcome(s, args@, r));
        }
        r
    }
}

/// A native closure of two parameters over the host state `St`, behind the
/// uniform calling convention.
#[verifier::reject_recursive_types(St)]
#[verifier::reject_recursive_types(Ret)]
#[verifier::reject_recursive_types(A1)]
#[verifier::reject_recursive_types(A2)]
pub struct Func2<
    Cl: Fn(&mut St, A1, A2) -> Result<Option<Ret>, Error>,
    St,
    Ret: AsReturnVal,
    A1: FromArg,
    A2: FromArg,
> {
    closure: Cl,
    _marker: PhantomData<(St, Ret, A1, A2)>,
}

impl<
    Cl: Fn(&mut St, A1, A2) -> Result<Option<Ret>, Error>,
    St,
    Ret: AsReturnVal,
    A1: FromArg,
    A2: FromArg,
> Func2<Cl, St, Ret, A1, A2> {
    /// The closure can be called on every state and every pair of arguments.
    #[verifier::type_invariant]
    spec fn callable(self) -> bool {
        forall|s: &mut St, a1: A1, a2: A2| call_requires(self.closure, (s, a1, a2))
    }

    /// The closure that this wrapper holds.
    pub closed spec fn closure(self) -> Cl {
        self.closure
    }

    /// Wraps `closure`, which must accept every state and every pair of arguments.
    pub fn new(closure: Cl) -> (r: Self)
        requires
            forall|s: &mut St, a1: A1, a2: A2| call_requires(closure, (s, a1, a2)),
        ensures
            r.closure() == closure,
    {
        Func2 { closure, _marker: PhantomData }
    }

    /// The function type that the interpreter sees for a wrapper of this
    /// type. It depends on the native types alone, not on any closure.
    pub fn derive_func_type() -> (r: FunctionType)
        ensures
            r@ == signature2::<Ret, A1, A2>(),
    {
        let mut params: Vec<ValueType> = Vec::new();
        params.push(A1::value_type());
        params.push(A2::value_type());
        assert(params@ =~= seq![A1::param_type(), A2::param_type()]);
        FunctionType::new(params, Ret::value_type())
    }
}

impl<
    Cl: Fn(&mut St, A1, A2) -> Result<Option<Ret>, Error>,
    St,
    Ret: AsReturnVal,
    A1: FromArg,
    A2: FromArg,
> AnyFunc<St> for Func2<Cl, St, Ret, A1, A2> {
    open spec fn signature(&self) -> Signature {
        signature2::<Ret, A1, A2>()
    }

    open spec fn outcome(
        &self,
        s: &mut St,
        args: Seq<RuntimeValue>,
        r: Result<Option<RuntimeValue>, Error>,
    ) -> bool {
        outcome2(self.closure(), s, args, r)
    }

    /// Calls the closure on `state` with the two arguments unpacked, and
    /// packs what it returns. A failure of the closure comes back unchanged.
    fn call_as_any(&self, state: &mut St, args: &[RuntimeValue]) -> (r: Result<
        Option<RuntimeValue>,
        Error,
    >)
        ensures
            match argument_fault(signature2::<Ret, A1, A2>().params, args@) {
                Some(e) => r == Err::<Option<RuntimeValue>, Error>(e) && *final(state) == *old(
                    state,
                ),
                None => exists|s: &mut St|
                    *s == *old(state) && *final(s) == *final(state)
                        && #[trigger] outcome2(self.closure(), s, args@, r),
            },
    {
        proof {
            use_type_invariant(self);
        }
        let func_type = Self::derive_func_type();
        match check_args(func_type.params.as_slice(), args) {
            Err(e) => {
                return Err(e);
            },
            Ok(()) => {},
        }
        proof {
            lemma_first_mismatch(func_type.params@, args@, 0);
        }
        let a1 = A1::from_arg(&args[0]);
        let a2 = A2::from_arg(&args[1]);
        let result = (self.closure)(state, a1, a2);
        let r = match result {
            Ok(Some(v)) => Ok(v.as_return_val()),
            Ok(None) => Ok(None),
            Err(e) => Err(e),
        };
        proof {
            let s = choose|s: &mut St|
                *s == *old(state) && *final(s) == *state && #[trigger] call_ensures(
                    self.closure,
                    (s, a1, a2),
                    result,
                );
            assert(self.outcome(s, args@, r));
        }
        r
    }
}

} // verus!
