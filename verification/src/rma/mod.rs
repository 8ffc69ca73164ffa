pub mod ptr;
pub mod traits;

pub use ptr::{
    SimpleLocalAttach, SimpleLocalPtr, SimpleLocalPtrMut, SimpleProcRemotePtr,
    SimpleProcRemotePtrMut, SimpleRemotePtr, SimpleRemotePtrMut,
};
pub use traits::{
    NoKey, RmaDevice, RmaKeys, RmaLocalAttach, RmaLocalPtr, RmaLocalPtrMut, RmaPointable,
    RmaProcRemotePtr, RmaProcRemotePtrMut, RmaPtr, RmaRemotePtr, RmaRemotePtrMut,
};
