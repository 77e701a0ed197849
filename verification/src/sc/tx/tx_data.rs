//! What a transaction carries: nothing, a call, a deploy or an upgrade.

use vstd::prelude::*;
use core::marker::PhantomData;
use crate::sc::tx::function_call::{call_data, FunctionCall, FunctionCallView};
use crate::sc::tx::tx_env::TxEnv;
use crate::sc::types::{ManagedAddress, ManagedArgBuffer, ManagedBuffer};
use crate::sc::types::code_metadata::CodeMetadata;

verus! {

/// What can stand in the data field of a transaction; `()` where it is empty.
pub trait TxData<Env> where Env: TxEnv {
    /// Whether the data field names no function: the transaction is a plain transfer.
    spec fn spec_is_no_call(&self) -> bool;

    /// Whether the data field names no function: the transaction is a plain transfer.
    fn is_no_call(&self) -> (r: bool)
        ensures
            r == self.spec_is_no_call(),
    ;
}

/// A data field that is a function call, or empty.
pub trait TxDataFunctionCall<Env>: TxData<Env> where Env: TxEnv {
    /// The call that the data field holds; empty where it holds none.
    spec fn spec_function_call(&self) -> FunctionCallView;

    /// The data field as the ledger takes it: the function's name, then each argument
    /// behind an `@`, in lower-case hexadecimal.
    fn to_call_data_string(&self) -> (r: ManagedBuffer)
        ensures
            r@ == call_data(self.spec_function_call()),
    ;
}

impl<Env> TxData<Env> for () where Env: TxEnv {
    open spec fn spec_is_no_call(&self) -> bool {
        true
    }

    fn is_no_call(&self) -> (r: bool) {
        true
    }
}

impl<Env> TxDataFunctionCall<Env> for () where Env: TxEnv {
    open spec fn spec_function_call(&self) -> FunctionCallView {
        FunctionCallView { function_name: Seq::empty(), arg_buffer: Seq::empty() }
    }

    fn to_call_data_string(&self) -> (r: ManagedBuffer) {
        let r: Vec<u8> = Vec::new();
        assert(r@ =~= call_data(
            FunctionCallView { function_name: Seq::empty(), arg_buffer: Seq::empty() },
        ));
        r
    }
}

impl<Env> TxData<Env> for FunctionCall where Env: TxEnv {
    open spec fn spec_is_no_call(&self) -> bool {
        self@.function_name.len() == 0
    }

    fn is_no_call(&self) -> (r: bool) {
        self.is_empty()
    }
}

impl<Env> TxDataFunctionCall<Env> for FunctionCall where Env: TxEnv {
    open spec fn spec_function_call(&self) -> FunctionCallView {
        self@
    }

    fn to_call_data_string(&self) -> (r: ManagedBuffer) {
        FunctionCall::to_call_data_string(self)
    }
}

/// What can stand for the code that a deploy or an upgrade puts in place; `()` where none
/// was given yet.
pub trait TxCodeSource<Env> where Env: TxEnv {

}

/// What can be given as the bytes of a contract's code.
pub trait TxCodeValue<Env> where Env: TxEnv {

}

/// What can be given as the address of a contract whose code is to be copied.
pub trait TxFromSourceValue<Env> where Env: TxEnv {

}

/// The code is given as bytes.
#[derive(Clone, Debug)]
pub struct Code<CodeValue>(pub CodeValue);

/// The code is that of an already deployed contract.
#[derive(Clone, Debug)]
pub struct FromSource<FromSourceValue>(pub FromSourceValue);

impl<Env> TxCodeSource<Env> for () where Env: TxEnv {

}

impl<Env> TxCodeValue<Env> for ManagedBuffer where Env: TxEnv {

}

impl<Env> TxCodeValue<Env> for &ManagedBuffer where Env: TxEnv {

}

impl<Env> TxFromSourceValue<Env> for ManagedAddress where Env: TxEnv {

}

impl<Env> TxFromSourceValue<Env> for &ManagedAddress where Env: TxEnv {

}

impl<Env, CodeValue> TxCodeSource<Env> for Code<CodeValue> where
    Env: TxEnv,
    CodeValue: TxCodeValue<Env>,
 {

}

impl<Env, FromSourceValue> TxCodeSource<Env> for FromSource<FromSourceValue> where
    Env: TxEnv,
    FromSourceValue: TxFromSourceValue<Env>,
 {

}

/// The data of a transaction that deploys a contract.
pub struct DeployCall<Env, CodeSource> where Env: TxEnv, CodeSource: TxCodeSource<Env> {
    pub code_source: CodeSource,
    pub code_metadata: CodeMetadata,
    pub arg_buffer: ManagedArgBuffer,
    pub _phantom: PhantomData<Env>,
}

impl<Env> Default for DeployCall<Env, ()> where Env: TxEnv {
    /// A deploy without code, flags or arguments yet.
    fn default() -> (r: Self)
        ensures
            r.code_metadata.bits == 0,
            r.arg_buffer@.len() == 0,
    {
        DeployCall {
            code_source: (),
            code_metadata: CodeMetadata::none(),
            arg_buffer: Vec::new(),
            _phantom: PhantomData,
        }
    }
}

impl<Env> DeployCall<Env, ()> where Env: TxEnv {

    /// The same deploy with the code to come from `code_source`.
    pub fn code_source<CodeSource>(self, code_source: CodeSource) -> (r: DeployCall<
        Env,
        CodeSource,
    >) where CodeSource: TxCodeSource<Env>
        ensures
            r.code_source == code_source,
            r.code_metadata == self.code_metadata,
            r.arg_buffer == self.arg_buffer,
    {
        DeployCall {
            code_source,
            code_metadata: self.code_metadata,
            arg_buffer: self.arg_buffer,
            _phantom: PhantomData,
        }
    }
}

impl<Env, CodeSource> DeployCall<Env, CodeSource> where Env: TxEnv, CodeSource: TxCodeSource<Env> {
    /// The same deploy with the flags `code_metadata`.
    pub fn code_metadata(self, code_metadata: CodeMetadata) -> (r: Self)
        ensures
            r.code_source == self.code_source,
            r.code_metadata == code_metadata,
            r.arg_buffer == self.arg_buffer,
    {
        let mut call = self;
        call.code_metadata = code_metadata;
        call
    }
}

impl<Env, CodeSource> TxData<Env> for DeployCall<Env, CodeSource> where
    Env: TxEnv,
    CodeSource: TxCodeSource<Env>,
 {
    open spec fn spec_is_no_call(&self) -> bool {
        false
    }

    fn is_no_call(&self) -> (r: bool) {
        false
    }
}

/// The data of a transaction that upgrades a contract.
pub struct UpgradeCall<Env, CodeSource> where Env: TxEnv, CodeSource: TxCodeSource<Env> {
    pub code_source: CodeSource,
    pub code_metadata: CodeMetadata,
    pub arg_buffer: ManagedArgBuffer,
    pub _phantom: PhantomData<Env>,
}

impl<Env> Default for UpgradeCall<Env, ()> where Env: TxEnv {
    /// An upgrade without code, flags or arguments yet.
    fn default() -> (r: Self)
        ensures
            r.code_metadata.bits == 0,
            r.arg_buffer@.len() == 0,
    {
        UpgradeCall {
            code_source: (),
            code_metadata: CodeMetadata::none(),
            arg_buffer: Vec::new(),
            _phantom: PhantomData,
        }
    }
}

impl<Env> UpgradeCall<Env, ()> where Env: TxEnv {

    /// The same upgrade with the code to come from `code_source`.
    pub fn code_source<CodeSource>(self, code_source: CodeSource) -> (r: UpgradeCall<
        Env,
        CodeSource,
    >) where CodeSource: TxCodeSource<Env>
        ensures
            r.code_source == code_source,
            r.code_metadata == self.code_metadata,
            r.arg_buffer == self.arg_buffer,
    {
        UpgradeCall {
            code_source,
            code_metadata: self.code_metadata,
            arg_buffer: self.arg_buffer,
            _phantom: PhantomData,
        }
    }
}

impl<Env, CodeSource> UpgradeCall<Env, CodeSource> where Env: TxEnv, CodeSource: TxCodeSource<Env> {
    /// The same upgrade with the flags `code_metadata`.
    pub fn code_metadata(self, code_metadata: CodeMetadata) -> (r: Self)
        ensures
            r.code_source == self.code_source,
            r.code_metadata == code_metadata,
            r.arg_buffer == self.arg_buffer,
    {
        let mut call = self;
        call.code_metadata = code_metadata;
        call
    }
}

impl<Env, CodeSource> TxData<Env> for UpgradeCall<Env, CodeSource> where
    Env: TxEnv,
    CodeSource: TxCodeSource<Env>,
 {
    open spec fn spec_is_no_call(&self) -> bool {
        false
    }

    fn is_no_call(&self) -> (r: bool) {
        false
    }
}

} // verus!
