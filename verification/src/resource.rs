//! Handles of kernel resources and the errors of resource operations.

use vstd::prelude::*;
use crate::text::{decimal_text, decimal_value, lemma_decimal_text, push_decimal};

verus! {

/// Handle of a resource returned by Sahne64, much like a file descriptor.
#[derive(Debug, Clone, Copy, PartialEq, Eq, Structural)]
pub struct ResourceHandle(pub u64);

/// Errors of resource operations.
#[derive(Debug, Clone, Copy, PartialEq, Eq, Structural)]
pub enum ResourceError {
    /// The handle is invalid or closed.
    InvalidHandle,
    /// The resource was not found.
    NotFound,
    /// Access is denied.
    PermissionDenied,
    /// Any other I/O error, with its code.
    IoError(u64),
}

/// The resource that a raw `SYSCALL_RESOURCE_ACQUIRE` result stands for: a
/// positive value is the handle; any other value is reported as an I/O
/// error carrying that value.
pub open spec fn spec_resource_result(raw: u64) -> Result<ResourceHandle, ResourceError> {
    if raw > 0 {
        Ok(ResourceHandle(raw))
    } else {
        Err(ResourceError::IoError(raw))
    }
}

/// A positive raw result is the handle; zero is reported as the I/O error 0.
pub proof fn lemma_resource_result(raw: u64)
    ensures
        raw > 0 ==> spec_resource_result(raw) == Ok::<ResourceHandle, ResourceError>(ResourceHandle(raw)),
        raw == 0 ==> spec_resource_result(raw) == Err::<ResourceHandle, ResourceError>(
            ResourceError::IoError(0),
        ),
{
}

/// Interprets the raw result of `SYSCALL_RESOURCE_ACQUIRE`.
pub fn resource_result(raw: u64) -> (res: Result<ResourceHandle, ResourceError>)
    ensures
        res == spec_resource_result(raw),
{
    if raw > 0 {
        Ok(ResourceHandle(raw))
    } else {
        Err(ResourceError::IoError(raw))
    }
}

impl ResourceError {
    /// The text that describes the error.
    pub open spec fn spec_message(self) -> Seq<char> {
        match self {
            ResourceError::InvalidHandle => "Geçersiz Kaynak Tanıtıcısı"@,
            ResourceError::NotFound => "Kaynak Bulunamadı"@,
            ResourceError::PermissionDenied => "Erişim Reddedildi"@,
            ResourceError::IoError(code) => "I/O Hatası ("@ + decimal_text(code as nat) + ")"@,
        }
    }

    /// The text of an I/O error is `I/O Hatası (`, the decimal digits of
    /// the code (which spell it back), and `)`.
    pub proof fn lemma_io_error_message(code: u64)
        ensures
            ResourceError::IoError(code).spec_message().subrange(0, 12) == "I/O Hatası ("@,
            ResourceError::IoError(code).spec_message().last() == ')',
            decimal_value(
                ResourceError::IoError(code).spec_message().subrange(
                    12,
                    ResourceError::IoError(code).spec_message().len() - 1,
                ),
            ) == code,
    {
        reveal_strlit("I/O Hatası (");
        reveal_strlit(")");
        lemma_decimal_text(code as nat);
        let m = ResourceError::IoError(code).spec_message();
        assert(m.subrange(0, 12) =~= "I/O Hatası ("@);
        assert(m.subrange(12, m.len() - 1) =~= decimal_text(code as nat));
    }

    /// Describes the error, as shown to the user.
    pub fn message(&self) -> (text: String)
        ensures
            text@ == self.spec_message(),
    {
        match self {
            ResourceError::InvalidHandle => String::from_str("Geçersiz Kaynak Tanıtıcısı"),
            ResourceError::NotFound => String::from_str("Kaynak Bulunamadı"),
            ResourceError::PermissionDenied => String::from_str("Erişim Reddedildi"),
            ResourceError::IoError(code) => {
                let mut text = String::from_str("I/O Hatası (");
                push_decimal(&mut text, *code);
                text.append(")");
                text
            },
        }
    }
}

} // verus!
