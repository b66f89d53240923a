//! The TLS cryptography of the process.
use vstd::prelude::*;

verus! {

/// Calls `rustls::crypto::CryptoProvider::install_default` on the provider that
/// `rustls::crypto::ring::default_provider` makes. The call makes it the provider of the process
/// unless another was installed before; which of the two holds is of no account here, and
/// nothing is claimed of it.
#[verifier::external_body]
pub(crate) fn install_crypto_provider() {
    let _ = rustls::crypto::ring::default_provider().install_default();
}

/// Runs `action`.
fn perform<A>(action: A) where A: Fn()
    requires
        call_requires(action, ()),
    ensures
        call_ensures(action, (), ()),
{
    action()
}

/// Whether the provider of the process was asked for.
pub closed spec fn provider_requested() -> bool {
    call_ensures(install_crypto_provider, (), ())
}

/// Who learns that the provider was asked for learns that the call was made.
pub(crate) proof fn law_requested_means_called()
    requires
        provider_requested(),
    ensures
        call_ensures(install_crypto_provider, (), ()),
{
}

/// Asks for the provider of the process.
pub(crate) fn request_provider()
    ensures
        provider_requested(),
{
    perform(install_crypto_provider);
}

} // verus!
