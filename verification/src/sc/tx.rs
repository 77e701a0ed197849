//! The transaction builder and the traits of its parts.

pub mod function_call;
#[allow(clippy::module_inception)]
pub mod tx;
pub mod tx_data;
pub mod tx_env;
pub mod tx_from;
pub mod tx_gas;
pub mod tx_payment;
pub mod tx_payment_dcdt;
pub mod tx_payment_moa_or_dcdt_refs;
pub mod tx_proxy;
pub mod tx_result_handler;
pub mod tx_to;

pub use tx_env::{
    TxEnv, TxEnvMockDeployAddress, TxEnvWithTxHash, TxScEnv, TxTestEnv, UNSPECIFIED_GAS_LIMIT,
};
pub use tx_from::{TxFrom, TxFromSpecified};
pub use tx_gas::{ExplicitGas, TxGas, TxGasValue};
pub use tx_to::{TxTo, TxToSpecified};
pub use function_call::{FunctionCall, FunctionCallView};
pub use tx_data::{
    Code, DeployCall, FromSource, TxCodeSource, TxCodeValue, TxData, TxDataFunctionCall,
    TxFromSourceValue, UpgradeCall,
};
pub use tx_payment::{
    FullPaymentData, FullPaymentDataView, Moa, MoaPayment, NormalizedTxView, NotPayable,
    TransferExecute,
    TransferExecuteView, TxMoaValue, TxPayment, TxPaymentMoaOnly,
};
pub use tx::{Tx, TxBaseWithEnv};
pub use tx_proxy::TxProxyTrait;
pub use tx_result_handler::{
    ConsNoRet, ConsRet, ExpectStatus, OriginalResultMarker, RHList, RHListAppendNoRet,
    RHListAppendRet, RHListItem, ReturnsBackTransfersMOA, ReturnsBackTransfersMultiDCDT,
    ReturnsBackTransfersSingleDCDT, ReturnsRawResult, ReturnsResult, TxResultHandler,
};
