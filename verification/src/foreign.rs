use vstd::prelude::*;

verus! {

/// A file descriptor received over D-Bus (`zvariant::OwnedFd`); carried through, never inspected.
#[verifier::external_type_specification]
#[verifier::external_body]
pub struct ExOwnedFd(zvariant::OwnedFd);

/// The sending half of a kanal channel with the async API (`kanal::AsyncSender`).
#[verifier::external_type_specification]
#[verifier::external_body]
#[verifier::reject_recursive_types(T)]
pub struct ExAsyncSender<T>(kanal::AsyncSender<T>);

/// The sending half of a kanal channel with the blocking API (`kanal::Sender`).
#[verifier::external_type_specification]
#[verifier::external_body]
#[verifier::reject_recursive_types(T)]
pub struct ExSender<T>(kanal::Sender<T>);

/// The error of a send on a closed kanal channel (`kanal::SendError`).
#[verifier::external_type_specification]
#[verifier::external_body]
pub struct ExSendError(kanal::SendError);

/// A vector of fixed capacity `CAP` stored inline (`arrayvec::ArrayVec`).
#[verifier::external_type_specification]
#[verifier::external_body]
#[verifier::reject_recursive_types(T)]
pub struct ExArrayVec<T, const CAP: usize>(arrayvec::ArrayVec<T, CAP>);

} // verus!
