//! What is to be done with the result of a transaction.

use vstd::prelude::*;
use core::marker::PhantomData;
use crate::sc::tx::tx_env::TxEnv;
use crate::sc::types::dcdt_token_payment::DcdtTokenPayment;
use crate::types::big_uint::BigUint;

verus! {

/// What can stand in the place of a transaction's result handlers.
pub trait TxResultHandler<Env> where Env: TxEnv {
    /// The type that the called function returns.
    type OriginalResult;
}

/// A list of result handlers.
pub trait RHList<Env>: TxResultHandler<Env> where Env: TxEnv {

}

/// One result handler, for a function that returns `Original`.
pub trait RHListItem<Env, Original> where Env: TxEnv {
    /// What the handler gives back to the sender of the transaction.
    type Returns;
}

/// A list to which a handler that gives something back can be added.
pub trait RHListAppendRet<Env, T>: RHList<Env> where
    Env: TxEnv,
    T: RHListItem<Env, Self::OriginalResult>,
 {
    /// The list with the handler added.
    type RetOutput: RHList<Env, OriginalResult = Self::OriginalResult>;

    /// The list with `t` added at its end.
    spec fn spec_append_ret(self, t: T) -> Self::RetOutput;

    /// The list with `t` added at its end.
    fn append_ret(self, t: T) -> (r: Self::RetOutput)
        ensures
            r == self.spec_append_ret(t),
    ;
}

/// A list to which a handler that gives nothing back can be added.
pub trait RHListAppendNoRet<Env, T>: RHList<Env> where
    Env: TxEnv,
    T: RHListItem<Env, Self::OriginalResult, Returns = ()>,
 {
    /// The list with the handler added.
    type NoRetOutput: RHList<Env, OriginalResult = Self::OriginalResult>;

    /// The list with `t` added at its end.
    spec fn spec_append_no_ret(self, t: T) -> Self::NoRetOutput;

    /// The list with `t` added at its end.
    fn append_no_ret(self, t: T) -> (r: Self::NoRetOutput)
        ensures
            r == self.spec_append_no_ret(t),
    ;
}

/// Says, at the end of a list of result handlers, what type the called function returns.
pub struct OriginalResultMarker<O> {
    pub _phantom: PhantomData<O>,
}

impl<O> OriginalResultMarker<O> {
    /// The marker for the result type `O`.
    pub fn new() -> (r: Self)
        ensures
            r == (OriginalResultMarker::<O> { _phantom: PhantomData }),
    {
        OriginalResultMarker { _phantom: PhantomData }
    }
}

/// A list of result handlers that starts with `head`, which gives something back.
pub struct ConsRet<Env, Head, Tail> where
    Env: TxEnv,
    Head: RHListItem<Env, Tail::OriginalResult>,
    Tail: RHList<Env>,
 {
    pub _phantom: PhantomData<Env>,
    pub head: Head,
    pub tail: Tail,
}

/// A list of result handlers that starts with `head`, which gives nothing back.
pub struct ConsNoRet<Env, Head, Tail> where
    Env: TxEnv,
    Head: RHListItem<Env, Tail::OriginalResult, Returns = ()>,
    Tail: RHList<Env>,
 {
    pub _phantom: PhantomData<Env>,
    pub head: Head,
    pub tail: Tail,
}

impl<Env> TxResultHandler<Env> for () where Env: TxEnv {
    type OriginalResult = ();
}

impl<Env> RHList<Env> for () where Env: TxEnv {

}

impl<Env, O> TxResultHandler<Env> for OriginalResultMarker<O> where Env: TxEnv {
    type OriginalResult = O;
}

impl<Env, O> RHList<Env> for OriginalResultMarker<O> where Env: TxEnv {

}

impl<Env, Head, Tail> TxResultHandler<Env> for ConsRet<Env, Head, Tail> where
    Env: TxEnv,
    Head: RHListItem<Env, Tail::OriginalResult>,
    Tail: RHList<Env>,
 {
    type OriginalResult = Tail::OriginalResult;
}

impl<Env, Head, Tail> RHList<Env> for ConsRet<Env, Head, Tail> where
    Env: TxEnv,
    Head: RHListItem<Env, Tail::OriginalResult>,
    Tail: RHList<Env>,
 {

}

impl<Env, Head, Tail> TxResultHandler<Env> for ConsNoRet<Env, Head, Tail> where
    Env: TxEnv,
    Head: RHListItem<Env, Tail::OriginalResult, Returns = ()>,
    Tail: RHList<Env>,
 {
    type OriginalResult = Tail::OriginalResult;
}

impl<Env, Head, Tail> RHList<Env> for ConsNoRet<Env, Head, Tail> where
    Env: TxEnv,
    Head: RHListItem<Env, Tail::OriginalResult, Returns = ()>,
    Tail: RHList<Env>,
 {

}

impl<Env, T> RHListAppendRet<Env, T> for () where Env: TxEnv, T: RHListItem<Env, ()> {
    type RetOutput = ConsRet<Env, T, ()>;

    open spec fn spec_append_ret(self, t: T) -> Self::RetOutput {
        ConsRet { _phantom: PhantomData, head: t, tail: () }
    }

    fn append_ret(self, t: T) -> (r: Self::RetOutput) {
        ConsRet { _phantom: PhantomData, head: t, tail: () }
    }
}

impl<Env, T> RHListAppendNoRet<Env, T> for () where
    Env: TxEnv,
    T: RHListItem<Env, (), Returns = ()>,
 {
    type NoRetOutput = ConsNoRet<Env, T, ()>;

    open spec fn spec_append_no_ret(self, t: T) -> Self::NoRetOutput {
        ConsNoRet { _phantom: PhantomData, head: t, tail: () }
    }

    fn append_no_ret(self, t: T) -> (r: Self::NoRetOutput) {
        ConsNoRet { _phantom: PhantomData, head: t, tail: () }
    }
}

impl<Env, O, T> RHListAppendRet<Env, T> for OriginalResultMarker<O> where
    Env: TxEnv,
    T: RHListItem<Env, O>,
 {
    type RetOutput = ConsRet<Env, T, OriginalResultMarker<O>>;

    open spec fn spec_append_ret(self, t: T) -> Self::RetOutput {
        ConsRet { _phantom: PhantomData, head: t, tail: self }
    }

    fn append_ret(self, t: T) -> (r: Self::RetOutput) {
        ConsRet { _phantom: PhantomData, head: t, tail: self }
    }
}

impl<Env, O, T> RHListAppendNoRet<Env, T> for OriginalResultMarker<O> where
    Env: TxEnv,
    T: RHListItem<Env, O, Returns = ()>,
 {
    type NoRetOutput = ConsNoRet<Env, T, OriginalResultMarker<O>>;

    open spec fn spec_append_no_ret(self, t: T) -> Self::NoRetOutput {
        ConsNoRet { _phantom: PhantomData, head: t, tail: self }
    }

    fn append_no_ret(self, t: T) -> (r: Self::NoRetOutput) {
        ConsNoRet { _phantom: PhantomData, head: t, tail: self }
    }
}

impl<Env, Head, Tail, T> RHListAppendRet<Env, T> for ConsRet<Env, Head, Tail> where
    Env: TxEnv,
    Head: RHListItem<Env, Tail::OriginalResult>,
    Tail: RHList<Env> + RHListAppendRet<Env, T>,
    T: RHListItem<Env, Tail::OriginalResult>,
 {
    type RetOutput = ConsRet<Env, Head, <Tail as RHListAppendRet<Env, T>>::RetOutput>;

    open spec fn spec_append_ret(self, t: T) -> Self::RetOutput {
        ConsRet { _phantom: PhantomData, head: self.head, tail: self.tail.spec_append_ret(t) }
    }

    fn append_ret(self, t: T) -> (r: Self::RetOutput) {
        ConsRet { _phantom: PhantomData, head: self.head, tail: self.tail.append_ret(t) }
    }
}

impl<Env, Head, Tail, T> RHListAppendNoRet<Env, T> for ConsRet<Env, Head, Tail> where
    Env: TxEnv,
    Head: RHListItem<Env, Tail::OriginalResult>,
    Tail: RHList<Env> + RHListAppendNoRet<Env, T>,
    T: RHListItem<Env, Tail::OriginalResult, Returns = ()>,
 {
    type NoRetOutput = ConsRet<Env, Head, <Tail as RHListAppendNoRet<Env, T>>::NoRetOutput>;

    open spec fn spec_append_no_ret(self, t: T) -> Self::NoRetOutput {
        ConsRet { _phantom: PhantomData, head: self.head, tail: self.tail.spec_append_no_ret(t) }
    }

    fn append_no_ret(self, t: T) -> (r: Self::NoRetOutput) {
        ConsRet { _phantom: PhantomData, head: self.head, tail: self.tail.append_no_ret(t) }
    }
}

impl<Env, Head, Tail, T> RHListAppendRet<Env, T> for ConsNoRet<Env, Head, Tail> where
    Env: TxEnv,
    Head: RHListItem<Env, Tail::OriginalResult, Returns = ()>,
    Tail: RHList<Env> + RHListAppendRet<Env, T>,
    T: RHListItem<Env, Tail::OriginalResult>,
 {
    type RetOutput = ConsNoRet<Env, Head, <Tail as RHListAppendRet<Env, T>>::RetOutput>;

    open spec fn spec_append_ret(self, t: T) -> Self::RetOutput {
        ConsNoRet { _phantom: PhantomData, head: self.head, tail: self.tail.spec_append_ret(t) }
    }

    fn append_ret(self, t: T) -> (r: Self::RetOutput) {
        ConsNoRet { _phantom: PhantomData, head: self.head, tail: self.tail.append_ret(t) }
    }
}

impl<Env, Head, Tail, T> RHListAppendNoRet<Env, T> for ConsNoRet<Env, Head, Tail> where
    Env: TxEnv,
    Head: RHListItem<Env, Tail::OriginalResult, Returns = ()>,
    Tail: RHList<Env> + RHListAppendNoRet<Env, T>,
    T: RHListItem<Env, Tail::OriginalResult, Returns = ()>,
 {
    type NoRetOutput = ConsNoRet<Env, Head, <Tail as RHListAppendNoRet<Env, T>>::NoRetOutput>;

    open spec fn spec_append_no_ret(self, t: T) -> Self::NoRetOutput {
        ConsNoRet { _phantom: PhantomData, head: self.head, tail: self.tail.spec_append_no_ret(t) }
    }

    fn append_no_ret(self, t: T) -> (r: Self::NoRetOutput) {
        ConsNoRet { _phantom: PhantomData, head: self.head, tail: self.tail.append_no_ret(t) }
    }
}

/// Asks for the result of the called function, decoded.
#[derive(Clone, Copy, Debug)]
pub struct ReturnsResult;

impl<Env, Original> RHListItem<Env, Original> for ReturnsResult where Env: TxEnv {
    type Returns = Original;
}

/// Asks for the result of the called function as the raw buffers it returned.
#[derive(Clone, Copy, Debug)]
pub struct ReturnsRawResult;

impl<Env, Original> RHListItem<Env, Original> for ReturnsRawResult where Env: TxEnv {
    type Returns = Vec<Vec<u8>>;
}

/// Asks for the MOA that the called contract sent back.
#[derive(Clone, Copy, Debug)]
pub struct ReturnsBackTransfersMOA;

impl<Env, Original> RHListItem<Env, Original> for ReturnsBackTransfersMOA where Env: TxEnv {
    type Returns = BigUint;
}

/// Asks for the one token payment that the called contract sent back.
#[derive(Clone, Copy, Debug)]
pub struct ReturnsBackTransfersSingleDCDT;

impl<Env, Original> RHListItem<Env, Original> for ReturnsBackTransfersSingleDCDT where Env: TxEnv {
    type Returns = DcdtTokenPayment;
}

/// Asks for all token payments that the called contract sent back.
#[derive(Clone, Copy, Debug)]
pub struct ReturnsBackTransfersMultiDCDT;

impl<Env, Original> RHListItem<Env, Original> for ReturnsBackTransfersMultiDCDT where Env: TxEnv {
    type Returns = Vec<DcdtTokenPayment>;
}

/// Asks that the transaction end with the given status; gives nothing back.
#[derive(Clone, Copy, Debug)]
pub struct ExpectStatus(pub u64);

impl<Env, Original> RHListItem<Env, Original> for ExpectStatus where Env: TxEnv {
    type Returns = ();
}

} // verus!
