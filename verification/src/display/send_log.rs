use vstd::prelude::*;

verus! {

/// The values handed to a channel, oldest first.
///
/// The record is ghost: it costs nothing at run time. Only the send functions of this
/// module extend it, and nothing else can change what it holds, so a contract over a log
/// states what a function handed to its channel.
pub struct SendLog<T> {
    handed: Ghost<Seq<T>>,
}

impl<T> View for SendLog<T> {
    type V = Seq<T>;

    closed spec fn view(&self) -> Seq<T> {
        self.handed@
    }
}

impl<T> SendLog<T> {
    /// An empty log.
    pub fn new() -> (l: Self)
        ensures
            l@ == Seq::<T>::empty(),
    {
        SendLog { handed: Ghost(Seq::empty()) }
    }
}

/// `kanal::Sender::try_send`: hands `value` to the channel without waiting, and records
/// it in `log` as handed over, whatever came of it. The source returns `Ok(true)` when a
/// receiver or a free buffer slot took the value, `Ok(false)` when the buffer was full,
/// and `Err` when the receiving side is closed. Which of these comes back depends on what
/// other threads have done to the channel, so no clause is stated of the result.
#[verifier::external_body]
pub(crate) fn try_send_blocking<T>(tx: &kanal::Sender<T>, log: &mut SendLog<T>, value: T) -> (r: Result<
    bool,
    kanal::SendError,
>)
    ensures
        final(log)@ == old(log)@.push(value),
{
    tx.try_send(value)
}

/// `kanal::AsyncSender::try_send`: the same non-blocking send on the async side of a
/// channel, recording `value` in `log` in the same way, with the same three outcomes;
/// which one comes back depends on the channel's state, so no clause is stated of the
/// result.
#[verifier::external_body]
pub(crate) fn try_send_async<T>(tx: &kanal::AsyncSender<T>, log: &mut SendLog<T>, value: T) -> (r: Result<
    bool,
    kanal::SendError,
>)
    ensures
        final(log)@ == old(log)@.push(value),
{
    tx.try_send(value)
}

} // verus!
