//! Hosts: the peer table, the compressor context, and what a host makes of
//! the outcome of each native call.

use vstd::prelude::*;
use crate::compress::{Compressor, InputBuffer, OutputBuffer};
use crate::error::Error;
use crate::event::{
    Event,
    EventKind,
    RawEvent,
    EVENT_TYPE_CONNECT,
    EVENT_TYPE_DISCONNECT,
    EVENT_TYPE_NONE,
};
use crate::addr::{first_v4, select_v4, Address, SocketAddress};
use crate::packet::Packet;
use crate::peer::{Peer, PeerMut, PeerSlot, PeerState, Reclaim, SlotView};
use crate::time::{duration_millis, duration_to_millis, narrow};
use core::marker::PhantomData;
use core::time::Duration;

verus! {

/// The largest number of channels that a connection can have.
pub const MAXIMUM_CHANNEL_COUNT: usize = 255;

/// What a [`Host`] stands for: the slots of its peer table, the failure that
/// its compressor context holds back, and the custom compressor that is
/// installed, if one is.
pub struct HostView<T, P> {
    pub peers: Seq<SlotView<T>>,
    pub failure: Option<P>,
    pub compressor: Option<Box<dyn Compressor>>,
}

/// The state that a host shares with the callbacks of a custom compressor:
/// the compressor itself, and at most one failure that a callback could not
/// raise where it happened.
pub struct CompressorCtx<P> {
    compressor: Option<Box<dyn Compressor>>,
    panic: Option<P>,
}

/// What a [`CompressorCtx`] stands for: the custom compressor, if one is
/// installed, and the failure that is held back, if one is.
pub struct CtxView<P> {
    pub compressor: Option<Box<dyn Compressor>>,
    pub failure: Option<P>,
}

/// The failure that a context holds back once `failure` was captured while
/// it held `held`: the one that came first.
pub open spec fn captured<P>(held: Option<P>, failure: P) -> Option<P> {
    if held is Some {
        held
    } else {
        Some(failure)
    }
}

/// What a compressor callback reports to the native engine, where `outcome`
/// is what became of the call of the compressor, `written` the number of
/// bytes in the output buffer and `limit` the number of bytes that the
/// native engine has room for: the number written if the compressor
/// succeeded and the engine has room for them, and zero, which says that
/// nothing was written, in every other case.
pub open spec fn reported<P>(
    outcome: Result<Result<(), crate::compress::Error>, P>,
    written: nat,
    limit: nat,
) -> nat {
    match outcome {
        Ok(Ok(_)) => if written <= limit {
            written
        } else {
            0
        },
        _ => 0,
    }
}

impl<P> View for CompressorCtx<P> {
    type V = CtxView<P>;

    closed spec fn view(&self) -> CtxView<P> {
        CtxView { compressor: self.compressor, failure: self.panic }
    }
}

impl<P> CompressorCtx<P> {
    /// The entry point that the native engine knows as its compress hook. It
    /// runs on incoming data, so it calls the compressor's `decompress`, on
    /// all the input buffers and on the output buffer as it was handed in.
    ///
    /// The result and the output buffer afterwards are what that call gave.
    /// If no compressor is installed, the result is an error, nothing written.
    pub fn compress(
        &mut self,
        input_buffers: &[InputBuffer],
        output_buffer: &mut OutputBuffer,
    ) -> (r: Result<(), crate::compress::Error>)
        ensures
            final(self)@.failure == old(self)@.failure,
            final(self)@.compressor is Some <==> old(self)@.compressor is Some,
            old(self)@.compressor is None ==> r is Err && final(output_buffer)@ == old(
                output_buffer,
            )@,
            old(self)@.compressor is Some ==> exists|
                args: (&mut dyn Compressor, &[InputBuffer], &mut OutputBuffer),
            |
                {
                    &&& args.1 == input_buffers
                    &&& mut_ref_current(args.2) == *old(output_buffer)
                    &&& mut_ref_future(args.2) == *final(output_buffer)
                    &&& #[trigger] decompress_gave::<dyn Compressor>(args, r)
                },
    {
        match self.compressor.as_mut() {
            Some(compressor) => call_decompress(&mut **compressor, input_buffers, output_buffer),
            None => Err(crate::compress::Error),
        }
    }

    /// The entry point that the native engine knows as its decompress hook.
    /// It runs on outgoing data, so it calls the compressor's `compress`, on
    /// the one input buffer, as a list of one, and on the output buffer as it
    /// was handed in.
    ///
    /// The result, and what the output buffer holds afterwards, are what that
    /// call gave. If no compressor is installed, the result is an error and
    /// nothing is written.
    pub fn decompress(&mut self, input_buffer: &[u8], output_buffer: &mut OutputBuffer) -> (r:
        Result<(), crate::compress::Error>)
        ensures
            final(self)@.failure == old(self)@.failure,
            final(self)@.compressor is Some <==> old(self)@.compressor is Some,
            old(self)@.compressor is None ==> r is Err && final(output_buffer)@ == old(
                output_buffer,
            )@,
            old(self)@.compressor is Some ==> exists|
                args: (&mut dyn Compressor, &[InputBuffer], &mut OutputBuffer),
            |
                {
                    &&& args.1@.len() == 1
                    &&& args.1@[0]@ == input_buffer@
                    &&& mut_ref_current(args.2) == *old(output_buffer)
                    &&& mut_ref_future(args.2) == *final(output_buffer)
                    &&& #[trigger] compress_gave::<dyn Compressor>(args, r)
                },
    {
        let input_buffers = [InputBuffer::new(input_buffer)];
        match self.compressor.as_mut() {
            Some(compressor) => call_compress(
                &mut **compressor,
                input_buffers.as_slice(),
                output_buffer,
            ),
            None => Err(crate::compress::Error),
        }
    }

    /// Ends a compressor callback: says what is reported to the native
    /// engine, and keeps a failure for the host to raise it again.
    ///
    /// `outcome` is the result of the compressor, or the failure that cut
    /// the call short. Of two failures the first is kept. `limit` is the
    /// number of bytes that the native engine has room for. A buffer that
    /// holds more, which the compressor can only have put in the place of
    /// the one it was handed, is reported as nothing written.
    pub fn complete(
        &mut self,
        outcome: Result<Result<(), crate::compress::Error>, P>,
        output_buffer: &OutputBuffer,
        limit: usize,
    ) -> (r: usize)
        ensures
            r == reported(outcome, output_buffer@.written.len(), limit as nat),
            r <= limit,
            r <= output_buffer@.written.len(),
            final(self)@.compressor == old(self)@.compressor,
            final(self)@.failure == match outcome {
                Err(failure) => captured(old(self)@.failure, failure),
                Ok(_) => old(self)@.failure,
            },
    {
        match outcome {
            Ok(Ok(_)) => {
                let written = output_buffer.written();
                if written <= limit {
                    written
                } else {
                    0
                }
            },
            Ok(Err(_)) => 0,
            Err(failure) => {
                if self.panic.is_none() {
                    self.panic = Some(failure);
                }
                0
            },
        }
    }
}

/// Whether `r` is what a call of [`Compressor::compress`] gave. `args` is
/// what the call was made on: the compressor, the input buffers, and the
/// output buffer before and after the call.
pub open spec fn compress_gave<'a, C: Compressor + ?Sized>(
    args: (&'a mut C, &'a [InputBuffer<'a>], &'a mut OutputBuffer),
    r: Result<(), crate::compress::Error>,
) -> bool {
    call_ensures(C::compress, args, r)
}

/// Whether `r` is what a call of [`Compressor::decompress`] gave. `args` is
/// what the call was made on: the compressor, the input buffers, and the
/// output buffer before and after the call.
pub open spec fn decompress_gave<'a, C: Compressor + ?Sized>(
    args: (&'a mut C, &'a [InputBuffer<'a>], &'a mut OutputBuffer),
    r: Result<(), crate::compress::Error>,
) -> bool {
    call_ensures(C::decompress, args, r)
}

/// Calls the compressor's `compress` on the buffers given.
fn call_compress<C: Compressor + ?Sized>(
    compressor: &mut C,
    input_buffers: &[InputBuffer],
    output_buffer: &mut OutputBuffer,
) -> (r: Result<(), crate::compress::Error>)
    ensures
        exists|args: (&mut C, &[InputBuffer], &mut OutputBuffer)|
            {
                &&& args.1 == input_buffers
                &&& mut_ref_current(args.2) == *old(output_buffer)
                &&& mut_ref_future(args.2) == *final(output_buffer)
                &&& #[trigger] compress_gave::<C>(args, r)
            },
{
    let r = compressor.compress(input_buffers, output_buffer);
    proof {
        let args = choose|args: (&mut C, &[InputBuffer], &mut OutputBuffer)|
            {
                &&& args.1 == input_buffers
                &&& mut_ref_current(args.2) == *old(output_buffer)
                &&& mut_ref_future(args.2) == *final(output_buffer)
                &&& #[trigger] call_ensures(C::compress, args, r)
            };
        assert(compress_gave::<C>(args, r));
    }
    r
}

/// Calls the compressor's `decompress` on the buffers given.
fn call_decompress<C: Compressor + ?Sized>(
    compressor: &mut C,
    input_buffers: &[InputBuffer],
    output_buffer: &mut OutputBuffer,
) -> (r: Result<(), crate::compress::Error>)
    ensures
        exists|args: (&mut C, &[InputBuffer], &mut OutputBuffer)|
            {
                &&& args.1 == input_buffers
                &&& mut_ref_current(args.2) == *old(output_buffer)
                &&& mut_ref_future(args.2) == *final(output_buffer)
                &&& #[trigger] decompress_gave::<C>(args, r)
            },
{
    let r = compressor.decompress(input_buffers, output_buffer);
    proof {
        let args = choose|args: (&mut C, &[InputBuffer], &mut OutputBuffer)|
            {
                &&& args.1 == input_buffers
                &&& mut_ref_current(args.2) == *old(output_buffer)
                &&& mut_ref_future(args.2) == *final(output_buffer)
                &&& #[trigger] call_ensures(C::decompress, args, r)
            };
        assert(decompress_gave::<C>(args, r));
    }
    r
}

/// Compressor for a host.
pub enum CompressorKind {
    /// A custom compressor.
    Custom(Box<dyn Compressor>),
    /// The builtin range coder of the native engine.
    RangeCoder,
}

/// The native call that installs a compressor, or removes the one installed.
#[derive(Clone, Copy, Debug, PartialEq, Eq)]
pub enum Installation {
    /// The callbacks of a custom compressor are installed.
    Custom,
    /// The builtin range coder is installed. Only this call reports a status.
    RangeCoder,
    /// Compression is switched off.
    Disabled,
}

/// The native call that `kind` asks for.
pub fn installation(kind: &Option<CompressorKind>) -> (r: Installation)
    ensures
        r == match *kind {
            Some(CompressorKind::Custom(_)) => Installation::Custom,
            Some(CompressorKind::RangeCoder) => Installation::RangeCoder,
            None => Installation::Disabled,
        },
{
    match kind {
        Some(CompressorKind::Custom(_)) => Installation::Custom,
        Some(CompressorKind::RangeCoder) => Installation::RangeCoder,
        None => Installation::Disabled,
    }
}

/// The host structure used for communicating with other peers.
///
/// `T` is the type of the data attached to every peer, `P` the type of a
/// failure that is captured inside a compressor callback.
pub struct Host<T, P> {
    compressor_ctx: Box<CompressorCtx<P>>,
    peers: Vec<PeerSlot<T>>,
}

impl<T, P> View for Host<T, P> {
    type V = HostView<T, P>;

    closed spec fn view(&self) -> HostView<T, P> {
        HostView {
            peers: self.peers@.map_values(|slot: PeerSlot<T>| slot@),
            failure: self.compressor_ctx.panic,
            compressor: self.compressor_ctx.compressor,
        }
    }
}

impl<T, P> Host<T, P> {
    /// Create a new builder. Convenience function.
    pub fn builder() -> (builder: HostBuilder<T>)
        ensures
            builder@ == BuilderView::unset(),
    {
        HostBuilder::default()
    }

    /// The host around a native host that was asked for with `peer_count`
    /// peers. `created` says whether the native engine made one; if it did
    /// not, the result is [`Error::Unknown`].
    ///
    /// No slot of the new host is in use, no compressor is installed and no
    /// failure is held back.
    pub fn new(peer_count: usize, created: bool) -> (r: Result<Host<T, P>, Error>)
        ensures
            r is Ok <==> created,
            r is Err ==> r->Err_0 is Unknown,
            r is Ok ==> r->Ok_0@ == (HostView::<T, P> {
                peers: Seq::new(peer_count as nat, |i: int| SlotView::<T>::unused()),
                failure: None,
                compressor: None,
            }),
    {
        if !created {
            return Err(Error::Unknown);
        }
        let mut peers: Vec<PeerSlot<T>> = Vec::new();
        let mut i: usize = 0;
        while i < peer_count
            invariant
                i <= peer_count,
                peers@.len() == i,
                forall|j: int| 0 <= j < i ==> (#[trigger] peers@[j])@ == SlotView::<T>::unused(),
            decreases peer_count - i,
        {
            peers.push(PeerSlot::new());
            i = i + 1;
        }
        let compressor_ctx = Box::new(CompressorCtx { compressor: None, panic: None });
        let host = Host { compressor_ctx, peers };
        assert(host@.peers =~= Seq::new(peer_count as nat, |i: int| SlotView::<T>::unused()));
        Ok(host)
    }

    /// Installs, replaces or removes the compressor of the host.
    ///
    /// `status` is what the native call named by [`installation`] returned,
    /// and is looked at for the range coder only, whose installation can be
    /// rejected: that is [`Error::Unknown`], and the host stays as it was.
    /// Otherwise the host keeps the custom compressor it was given, or none.
    pub fn set_compressor(&mut self, kind: Option<CompressorKind>, status: i32) -> (r: Result<
        (),
        Error,
    >)
        ensures
            r is Err <==> kind == Some(CompressorKind::RangeCoder) && status < 0,
            r is Err ==> r->Err_0 is Unknown && final(self)@ == old(self)@,
            r is Ok ==> final(self)@ == (HostView {
                compressor: match kind {
                    Some(CompressorKind::Custom(compressor)) => Some(compressor),
                    _ => None,
                },
                ..old(self)@
            }),
    {
        match kind {
            Some(CompressorKind::Custom(compressor)) => {
                self.compressor_ctx.compressor = Some(compressor);
            },
            Some(CompressorKind::RangeCoder) => {
                if status < 0 {
                    return Err(Error::Unknown);
                }
                self.compressor_ctx.compressor = None;
            },
            None => {
                self.compressor_ctx.compressor = None;
            },
        }
        Ok(())
    }

    /// The state that the host shares with the callbacks of its compressor.
    pub fn compressor_ctx(&mut self) -> (ctx: &mut CompressorCtx<P>)
        ensures
            ctx@ == (CtxView { compressor: old(self)@.compressor, failure: old(self)@.failure }),
            final(self)@ == (HostView {
                compressor: final(ctx)@.compressor,
                failure: final(ctx)@.failure,
                ..old(self)@
            }),
    {
        &mut *self.compressor_ctx
    }

    /// Takes the failure that a compressor callback left behind, if there is
    /// one, for the caller to raise it again. The host holds none afterwards.
    pub fn panic_check(&mut self) -> (failure: Option<P>)
        ensures
            failure == old(self)@.failure,
            final(self)@ == (HostView { failure: None, ..old(self)@ }),
    {
        self.compressor_ctx.panic.take()
    }

    /// Reclaims the data attached to every peer, whatever its state. This
    /// comes before the native host is destroyed, which knows nothing of the
    /// data.
    pub fn drop_data(&mut self)
        ensures
            final(self)@ == (HostView {
                peers: Seq::new(
                    old(self)@.peers.len(),
                    |i: int| old(self)@.peers[i].reclaimed(Reclaim::HostDrop),
                ),
                ..old(self)@
            }),
    {
        let mut i: usize = 0;
        while i < self.peers.len()
            invariant
                i <= self.peers@.len(),
                self.peers@.len() == old(self).peers@.len(),
                self.compressor_ctx == old(self).compressor_ctx,
                forall|j: int|
                    0 <= j < i ==> (#[trigger] self.peers@[j])@ == SlotView::<T>::unused(),
            decreases self.peers@.len() - i,
        {
            let _ = self.peers[i].reclaim();
            i = i + 1;
        }
        assert(self@.peers =~= Seq::new(
            old(self)@.peers.len(),
            |i: int| old(self)@.peers[i].reclaimed(Reclaim::HostDrop),
        ));
    }

    /// Read-only views of all peers whose slot is in use, in the order of
    /// the peer table.
    pub fn peers(&self) -> (peers: Vec<Peer<'_, T>>)
        ensures
            peers@.map_values(|peer: Peer<T>| peer.slot()) == self@.peers.filter(
                |slot: SlotView<T>| slot.data is Some,
            ),
    {
        let ghost in_use = |slot: SlotView<T>| slot.data is Some;
        let ghost slot_of = |peer: Peer<T>| peer.slot();
        let mut peers: Vec<Peer<'_, T>> = Vec::new();
        let mut i: usize = 0;
        proof {
            reveal(Seq::filter);
            assert(self@.peers.take(0).filter(in_use) =~= peers@.map_values(slot_of));
        }
        while i < self.peers.len()
            invariant
                i <= self.peers@.len(),
                in_use == |slot: SlotView<T>| slot.data is Some,
                slot_of == |peer: Peer<T>| peer.slot(),
                peers@.map_values(slot_of) == self@.peers.take(i as int).filter(in_use),
            decreases self.peers@.len() - i,
        {
            let ghost before = peers@;
            let found = Peer::new(&self.peers[i]);
            proof {
                assert(self@.peers.take(i as int + 1) =~= self@.peers.take(i as int).push(
                    self@.peers[i as int],
                ));
                self@.peers.take(i as int).lemma_filter_push(self@.peers[i as int], in_use);
            }
            match found {
                Some(peer) => {
                    peers.push(peer);
                    assert(peers@.map_values(slot_of) =~= before.map_values(slot_of).push(
                        peer.slot(),
                    ));
                },
                None => {},
            }
            i = i + 1;
        }
        assert(self@.peers.take(i as int) =~= self@.peers);
        peers
    }

    /// Mutable views of all peers whose slot is in use, in the order of the
    /// peer table.
    pub fn peers_mut(&mut self) -> (peers: Vec<PeerMut<'_, T>>)
        ensures
            peers@.map_values(|peer: PeerMut<T>| peer@) == old(self)@.peers.filter(
                |slot: SlotView<T>| slot.data is Some,
            ),
            forall|k: int| 0 <= k < peers@.len() ==> !(#[trigger] peers@[k]).disconnecting,
            final(self)@.peers.len() == old(self)@.peers.len(),
            final(self)@.failure == old(self)@.failure,
            final(self)@.compressor == old(self)@.compressor,
            forall|i: int|
                0 <= i < old(self)@.peers.len() && old(self)@.peers[i].data is None ==> (
                #[trigger] final(self)@.peers[i]) == old(self)@.peers[i],
            peers@.len() == slots_in_use(old(self)@.peers).len(),
            forall|k: int|
                0 <= k < peers@.len() ==> final(self)@.peers[slots_in_use(old(self)@.peers)[k]]
                    == final((#[trigger] peers@[k]).slot)@,
    {
        let ghost in_use = |slot: SlotView<T>| slot.data is Some;
        let ghost view_of = |peer: PeerMut<T>| peer@;
        let ghost views = self@.peers;
        let mut peers: Vec<PeerMut<'_, T>> = Vec::new();
        let ghost host_after = final(self)@;
        let mut rest: &mut [PeerSlot<T>] = self.peers.as_mut_slice();
        let ghost whole = final(rest)@;
        let ghost mut done: int = 0;
        proof {
            reveal(Seq::filter);
        }
        while rest.len() > 0
            invariant
                0 <= done <= views.len(),
                in_use == |slot: SlotView<T>| slot.data is Some,
                view_of == |peer: PeerMut<T>| peer@,
                rest@.map_values(|slot: PeerSlot<T>| slot@) == views.skip(done),
                peers@.map_values(view_of) == views.take(done).filter(in_use),
                forall|k: int| 0 <= k < peers@.len() ==> !(#[trigger] peers@[k]).disconnecting,
                whole.len() == done + final(rest)@.len(),
                final(rest)@ == whole.skip(done),
                forall|i: int|
                    0 <= i < done && views[i].data is None ==> (#[trigger] whole[i])@ == views[i],
                peers@.len() == slots_in_use(views.take(done)).len(),
                forall|k: int|
                    0 <= k < peers@.len() ==> whole[slots_in_use(views.take(done))[k]]
                        == *final((#[trigger] peers@[k]).slot),
            decreases rest@.len(),
        {
            let ghost rest_before = rest@;
            proof {
                let was = rest_before.map_values(|slot: PeerSlot<T>| slot@);
                assert(was.len() == views.skip(done).len());
            }
            let (head, tail) = rest.split_at_mut(1);
            rest = tail;
            let slot = &mut head[0];
            proof {
                assert(whole.skip(done).skip(1) =~= whole.skip(done + 1));
                assert(whole[done] == whole.skip(done)[0]);
                assert(slot@ == views[done]) by {
                    assert(rest_before.map_values(|slot: PeerSlot<T>| slot@)[0] == views.skip(
                        done,
                    )[0]);
                }
                let now = rest@.map_values(|slot: PeerSlot<T>| slot@);
                let was = rest_before.map_values(|slot: PeerSlot<T>| slot@);
                assert forall|j: int| 0 <= j < now.len() implies #[trigger] now[j] == views.skip(
                    done + 1,
                )[j] by {
                    assert(was[j + 1] == views.skip(done)[j + 1]);
                }
                assert(views.take(done + 1) =~= views.take(done).push(views[done]));
                assert(views.take(done + 1).drop_last() =~= views.take(done));
                views.take(done).lemma_filter_push(views[done], in_use);
            }
            let ghost found = slots_in_use(views.take(done));
            proof {
                assert(slots_in_use(views.take(done + 1)) == if views[done].data is Some {
                    found.push(done)
                } else {
                    found
                });
            }
            if slot.is_attached() {
                peers.push(PeerMut { slot, disconnecting: false });
                assert forall|k: int| 0 <= k < peers@.len() implies whole[found.push(done)[k]]
                    == *final((#[trigger] peers@[k]).slot) by {
                }
            }
            proof {
                done = done + 1;
            }
        }
        proof {
            assert(views.take(done) =~= views);
            lemma_slots_in_use(views);
            assert forall|k: int| 0 <= k < peers@.len() implies host_after.peers[slots_in_use(
                views,
            )[k]] == final((#[trigger] peers@[k]).slot)@ by {
            }
        }
        peers
    }

    /// A read-only view of the peer in slot `index`, if there is such a slot
    /// and it is in use.
    pub fn peer(&self, index: usize) -> (peer: Option<Peer<'_, T>>)
        ensures
            peer is Some <==> index < self@.peers.len() && self@.peers[index as int].data is Some,
            peer is Some ==> peer->0.slot() == self@.peers[index as int],
    {
        if index < self.peers.len() {
            Peer::new(&self.peers[index])
        } else {
            None
        }
    }

    /// A mutable view of the peer in slot `index`, if there is such a slot
    /// and it is in use.
    pub fn peer_mut(&mut self, index: usize) -> (peer: Option<PeerMut<'_, T>>)
        ensures
            peer is Some <==> index < old(self)@.peers.len() && old(self)@.peers[index as int].data
                is Some,
            peer is None ==> final(self)@ == old(self)@,
            peer matches Some(view) ==> {
                &&& view@ == old(self)@.peers[index as int]
                &&& !view.disconnecting
                &&& final(self)@ == (HostView {
                    peers: old(self)@.peers.update(index as int, final(view.slot)@),
                    ..old(self)@
                })
            },
    {
        if index < self.peers.len() && self.peers[index].is_attached() {
            let ghost before = self.peers@;
            let slot = &mut self.peers[index];
            proof {
                lemma_update_views(before, index as int, *final(slot));
            }
            Some(PeerMut { slot, disconnecting: false })
        } else {
            None
        }
    }

    /// The number of slots in the peer table.
    pub fn peer_count(&self) -> (n: usize)
        ensures
            n == self@.peers.len(),
    {
        self.peers.len()
    }
}

/// What a host operation hands back to its caller.
#[derive(Debug)]
pub enum Outcome<V, P> {
    /// A failure that was captured inside a compressor callback. The caller
    /// raises it again in place of a result.
    Failure(P),
    /// The result of the operation.
    Finished(V),
}

impl<T: Default, P> Host<T, P> {
    /// Waits for events on the host and shuttles packets between the host
    /// and its peers: what the host makes of the native call's outcome.
    ///
    /// `status` is what the native call returned and `event` the event it
    /// filled in, which is looked at only if `status` is not negative. A
    /// failure captured inside a compressor callback comes first: it is
    /// handed back to be raised again, after the event has been taken in and
    /// a disconnected peer's data reclaimed, and is then gone from the host.
    /// Otherwise a negative status is [`Error::Unknown`], and any other
    /// status gives the event as [`Host::translate_event`] does: `None` if
    /// no event occurred in time.
    pub fn service(&mut self, status: i32, event: RawEvent) -> (r: Outcome<
        Result<Option<Event<'_, T>>, Error>,
        P,
    >)
        requires
            status >= 0 ==> event.valid(old(self)@.peers.len()),
        ensures
            serviced(old(self)@, status >= 0, status < 0, event, r, final(self)@),
            r matches Outcome::Finished(Ok(Some(ev))) ==> final(self)@.peers[event.peer as int]
                == final(ev.peer.slot)@,
    {
        let failure = self.panic_check();
        if status < 0 {
            return match failure {
                Some(failure) => Outcome::Failure(failure),
                None => Outcome::Finished(Err(Error::Unknown)),
            };
        }
        match failure {
            Some(failure) => {
                self.settle_event(event);
                Outcome::Failure(failure)
            },
            None => Outcome::Finished(Ok(self.translate_event(event))),
        }
    }

    /// Checks for any queued events on the host and dispatches one if
    /// available: what the host makes of the native call's outcome.
    ///
    /// As [`Host::service`], but `event` is looked at only if `status` is
    /// positive: a status of zero says that no event was queued.
    pub fn check_events(&mut self, status: i32, event: RawEvent) -> (r: Outcome<
        Result<Option<Event<'_, T>>, Error>,
        P,
    >)
        requires
            status > 0 ==> event.valid(old(self)@.peers.len()),
        ensures
            serviced(old(self)@, status > 0, status < 0, event, r, final(self)@),
            r matches Outcome::Finished(Ok(Some(ev))) ==> final(self)@.peers[event.peer as int]
                == final(ev.peer.slot)@,
    {
        let failure = self.panic_check();
        if status < 0 {
            return match failure {
                Some(failure) => Outcome::Failure(failure),
                None => Outcome::Finished(Err(Error::Unknown)),
            };
        }
        if status == 0 {
            return match failure {
                Some(failure) => Outcome::Failure(failure),
                None => Outcome::Finished(Ok(None)),
            };
        }
        match failure {
            Some(failure) => {
                self.settle_event(event);
                Outcome::Failure(failure)
            },
            None => Outcome::Finished(Ok(self.translate_event(event))),
        }
    }

    /// Initiates a connection to a foreign host: what the host makes of the
    /// native call's outcome.
    ///
    /// `peer` is the slot of the peer that the native engine set apart for
    /// the connection, or `None` if it had none left, which is
    /// [`Error::Unknown`]. The peer that is handed out is connecting and has
    /// data attached: the data that was attached before, or
    /// default-initialized data. It will not have completed the connection
    /// until the host notifies of a connection for it.
    pub fn connect(&mut self, peer: Option<usize>) -> (r: Result<PeerMut<'_, T>, Error>)
        requires
            peer matches Some(index) ==> index < old(self)@.peers.len(),
        ensures
            r is Err <==> peer is None,
            r is Err ==> r->Err_0 is Unknown && final(self)@ == old(self)@,
            r matches Ok(view) ==> {
                let before = old(self)@.peers[peer->0 as int];
                &&& !view.disconnecting
                &&& view@.state is Connecting
                &&& view@.data is Some
                &&& before.data is Some ==> view@.data == before.data
                &&& before.data is None ==> call_ensures(T::default, (), view@.data->0)
                &&& final(self)@ == (HostView {
                    peers: old(self)@.peers.update(peer->0 as int, final(view.slot)@),
                    ..old(self)@
                })
            },
    {
        match peer {
            Some(index) => {
                let ghost before = self.peers@;
                let slot = &mut self.peers[index];
                proof {
                    lemma_update_views(before, index as int, *final(slot));
                }
                slot.enter(PeerState::Connecting);
                Ok(PeerMut { slot, disconnecting: false })
            },
            None => Err(Error::Unknown),
        }
    }

    /// Takes in an event that is not handed out: the peer is brought to
    /// where the event leaves it, and the data of a disconnected peer is
    /// reclaimed.
    fn settle_event(&mut self, event: RawEvent)
        requires
            event.valid(old(self)@.peers.len()),
        ensures
            settled(old(self)@, event, final(self)@),
    {
        match self.translate_event(event) {
            Some(ev) => {
                let mut peer = ev.peer;
                peer.release();
            },
            None => {},
        }
    }

    /// Turns a native event into an event of the host.
    ///
    /// An event that reports nothing gives `None`. Every other event gives
    /// the peer it is about, with data attached: the data that was attached
    /// before, or default-initialized data. A connection takes the peer to
    /// `Connected`, a disconnection to `Disconnecting`; the view of a
    /// disconnected peer is marked so that its data is reclaimed when the
    /// view is released.
    pub fn translate_event(&mut self, event: RawEvent) -> (r: Option<Event<'_, T>>)
        requires
            event.valid(old(self)@.peers.len()),
        ensures
            r is None <==> event.kind == EVENT_TYPE_NONE,
            r is None ==> final(self)@ == old(self)@,
            r matches Some(ev) ==> {
                let before = old(self)@.peers[event.peer as int];
                &&& ev.kind@ == event.kind_view()
                &&& ev.peer.disconnecting == (event.kind == EVENT_TYPE_DISCONNECT)
                &&& ev.peer@.state == event_state(before.state, event.kind)
                &&& ev.peer@.data is Some
                &&& before.data is Some ==> ev.peer@.data == before.data
                &&& before.data is None ==> call_ensures(T::default, (), ev.peer@.data->0)
                &&& final(self)@ == (HostView {
                    peers: old(self)@.peers.update(event.peer as int, final(ev.peer.slot)@),
                    ..old(self)@
                })
            },
    {
        let RawEvent { kind, peer, channel_id, data, packet } = event;
        if kind == EVENT_TYPE_NONE {
            return None;
        }
        let ghost before = self.peers@;
        let slot = &mut self.peers[peer];
        proof {
            lemma_update_views(before, peer as int, *final(slot));
        }
        let state = match slot.state() {
            PeerState::Unused => PeerState::Connected,
            state => state,
        };
        if kind == EVENT_TYPE_CONNECT {
            slot.enter(PeerState::Connected);
            let peer = PeerMut { slot, disconnecting: false };
            Some(Event { peer, kind: EventKind::Connect(data) })
        } else if kind == EVENT_TYPE_DISCONNECT {
            slot.enter(PeerState::Disconnecting);
            let peer = PeerMut { slot, disconnecting: true };
            Some(Event { peer, kind: EventKind::Disconnect(data) })
        } else {
            slot.enter(state);
            let packet = Packet::from_raw(packet.unwrap(), channel_id).unwrap();
            let peer = PeerMut { slot, disconnecting: false };
            Some(Event { peer, kind: EventKind::Receive(packet) })
        }
    }
}

/// What a host has become once it took in `event` without handing it out.
///
/// An event that reports nothing changes nothing. After a disconnection the
/// slot of the peer is unused. After any other event the peer stands where
/// the event leaves it, with data attached: the data that was attached
/// before, or default-initialized data.
pub open spec fn settled<T: Default, P>(
    before: HostView<T, P>,
    event: RawEvent,
    after: HostView<T, P>,
) -> bool {
    if event.kind == EVENT_TYPE_NONE {
        after == before
    } else {
        let i = event.peer as int;
        let slot = before.peers[i];
        &&& after.failure == before.failure
        &&& after.compressor == before.compressor
        &&& after.peers == before.peers.update(i, after.peers[i])
        &&& if event.kind == EVENT_TYPE_DISCONNECT {
            after.peers[i] == SlotView::<T>::unused()
        } else {
            &&& after.peers[i].state == event_state(slot.state, event.kind)
            &&& after.peers[i].data is Some
            &&& slot.data is Some ==> after.peers[i].data == slot.data
            &&& slot.data is None ==> call_ensures(T::default, (), after.peers[i].data->0)
        }
    }
}

/// What [`Host::service`] and [`Host::check_events`] hand back as `r`, and
/// what they make of the host `before`, where `has_event` says whether the
/// native call filled in `event` and `failed` whether it reported a failure.
///
/// A failure held back comes first and leaves the host without one. With
/// none held back, a native failure is an error, no event is `None`, and an
/// event is handed out with its peer, whose slot is the only one that the
/// event, and later the holder of the view, can change.
pub open spec fn serviced<'a, T: Default, P>(
    before: HostView<T, P>,
    has_event: bool,
    failed: bool,
    event: RawEvent,
    r: Outcome<Result<Option<Event<'a, T>>, Error>, P>,
    after: HostView<T, P>,
) -> bool {
    let calm = HostView { failure: None, ..before };
    match before.failure {
        Some(failure) => {
            &&& r == Outcome::<Result<Option<Event<'a, T>>, Error>, P>::Failure(failure)
            &&& if has_event {
                settled(calm, event, after)
            } else {
                after == calm
            }
        },
        None => {
            &&& r is Finished
            &&& match r->Finished_0 {
                Err(error) => failed && error is Unknown && after == before,
                Ok(None) => !failed && (has_event ==> event.kind == EVENT_TYPE_NONE) && after
                    == before,
                Ok(Some(ev)) => {
                    let slot = before.peers[event.peer as int];
                    &&& has_event
                    &&& event.kind != EVENT_TYPE_NONE
                    &&& ev.kind@ == event.kind_view()
                    &&& ev.peer.disconnecting == (event.kind == EVENT_TYPE_DISCONNECT)
                    &&& ev.peer@.state == event_state(slot.state, event.kind)
                    &&& ev.peer@.data is Some
                    &&& slot.data is Some ==> ev.peer@.data == slot.data
                    &&& slot.data is None ==> call_ensures(T::default, (), ev.peer@.data->0)
                    &&& after == (HostView {
                        peers: before.peers.update(
                            event.peer as int,
                            after.peers[event.peer as int],
                        ),
                        ..before
                    })
                },
            }
        },
    }
}

/// A failure that a compressor callback leaves with a host that held none
/// is handed back by the next host operation, whatever the native call
/// returned, and by that one only: the host holds none afterwards, and the
/// operation after it ends with a result.
pub proof fn lemma_failure_raised_once<'a, 'b, T: Default, P>(
    host: HostView<T, P>,
    failure: P,
    first: (bool, bool, RawEvent),
    raised: Outcome<Result<Option<Event<'a, T>>, Error>, P>,
    between: HostView<T, P>,
    second: (bool, bool, RawEvent),
    result: Outcome<Result<Option<Event<'b, T>>, Error>, P>,
    after: HostView<T, P>,
)
    requires
        host.failure is None,
        serviced(
            HostView { failure: captured(host.failure, failure), ..host },
            first.0,
            first.1,
            first.2,
            raised,
            between,
        ),
        serviced(between, second.0, second.1, second.2, result, after),
    ensures
        raised == Outcome::<Result<Option<Event<'a, T>>, Error>, P>::Failure(failure),
        between.failure is None,
        result is Finished,
        after.failure is None,
{
}

/// Of two failures that compressor callbacks leave with a host before it
/// gets to raise one, the first is kept.
pub proof fn lemma_first_failure_kept<P>(held: Option<P>, first: P, second: P)
    ensures
        captured(captured(held, first), second) == captured(held, first),
        held is None ==> captured(held, first) == Some(first),
{
}

/// The indices of the slots that are in use, in rising order.
pub open spec fn slots_in_use<T>(slots: Seq<SlotView<T>>) -> Seq<int>
    decreases slots.len(),
{
    if slots.len() == 0 {
        Seq::empty()
    } else if slots.last().data is Some {
        slots_in_use(slots.drop_last()).push(slots.len() - 1)
    } else {
        slots_in_use(slots.drop_last())
    }
}

/// The indices that [`slots_in_use`] lists are indices of the table, of slots
/// that are in use.
pub proof fn lemma_slots_in_use<T>(slots: Seq<SlotView<T>>)
    ensures
        forall|k: int|
            0 <= k < slots_in_use(slots).len() ==> 0 <= (#[trigger] slots_in_use(slots)[k])
                < slots.len() && slots[slots_in_use(slots)[k]].data is Some,
    decreases slots.len(),
{
    if slots.len() > 0 {
        lemma_slots_in_use(slots.drop_last());
    }
}

/// The views of a table in which one slot was replaced are the views of the
/// table, with the view of that slot replaced.
proof fn lemma_update_views<T>(slots: Seq<PeerSlot<T>>, i: int, slot: PeerSlot<T>)
    requires
        0 <= i < slots.len(),
    ensures
        slots.update(i, slot).map_values(|slot: PeerSlot<T>| slot@) == slots.map_values(
            |slot: PeerSlot<T>| slot@,
        ).update(i, slot@),
{
    assert(slots.update(i, slot).map_values(|slot: PeerSlot<T>| slot@) =~= slots.map_values(
        |slot: PeerSlot<T>| slot@,
    ).update(i, slot@));
}

/// Where a peer stands after an event of type `kind`, if it stood at `state`
/// before: connected after a connection, disconnecting after a
/// disconnection, and where it stood after a received packet, but connected
/// if the slot was not in use.
pub open spec fn event_state(state: PeerState, kind: u32) -> PeerState {
    if kind == EVENT_TYPE_CONNECT {
        PeerState::Connected
    } else if kind == EVENT_TYPE_DISCONNECT {
        PeerState::Disconnecting
    } else if state is Unused {
        PeerState::Connected
    } else {
        state
    }
}

/// The timeout of [`Host::service`] in milliseconds, as the native engine
/// takes it. `None` if the timeout is longer than 32 bits of milliseconds
/// can say.
pub fn service_timeout(timeout: Duration) -> (r: Option<u32>)
    ensures
        r == narrow(duration_millis(timeout)),
{
    duration_to_millis(timeout)
}

/// Whether a connection can have `channel_count` channels: there has to be
/// at least one, else the result is [`Error::InvalidArgument`].
pub fn check_channel_count(channel_count: usize) -> (r: Result<(), Error>)
    ensures
        r is Err <==> channel_count == 0,
        r is Err ==> r->Err_0 is InvalidArgument,
{
    if channel_count == 0 {
        Err(Error::InvalidArgument)
    } else {
        Ok(())
    }
}

/// The address that a connection with `channel_count` channels goes to,
/// where `resolved` is what the resolution of the target yielded.
pub open spec fn target_of(
    channel_count: usize,
    resolved: Result<Seq<SocketAddress>, std::io::Error>,
) -> Result<Address, Error> {
    if channel_count == 0 {
        Err(Error::InvalidArgument)
    } else {
        match resolved {
            Err(err) => Err(Error::Io(err)),
            Ok(addrs) => match first_v4(addrs) {
                Some(addr) => Ok(addr),
                None => Err(Error::InvalidArgument),
            },
        }
    }
}

/// The address that [`Host::connect`] goes to: the first IPv4 socket
/// address that the target resolved to.
///
/// A connection without channels is refused first, with
/// [`Error::InvalidArgument`]. A failed resolution is handed on as
/// [`Error::Io`]. A target that resolved to no IPv4 address is refused with
/// [`Error::InvalidArgument`].
pub fn connect_target(
    channel_count: usize,
    resolved: Result<Vec<SocketAddress>, std::io::Error>,
) -> (r: Result<Address, Error>)
    ensures
        r == target_of(
            channel_count,
            match resolved {
                Ok(addrs) => Ok(addrs@),
                Err(err) => Err(err),
            },
        ),
{
    if channel_count == 0 {
        return Err(Error::InvalidArgument);
    }
    match resolved {
        Err(err) => Err(Error::from(err)),
        Ok(addrs) => match select_v4(addrs.as_slice()) {
            Some(addr) => Ok(addr),
            None => Err(Error::InvalidArgument),
        },
    }
}

/// What a [`HostBuilder`] stands for: each setting as it was made, if it was
/// made.
pub struct BuilderView {
    pub addr: Option<Result<Address, std::io::Error>>,
    pub peer_count: Option<usize>,
    pub channel_limit: Option<usize>,
    pub incoming_bandwidth: Option<u32>,
    pub outgoing_bandwidth: Option<u32>,
    pub compressor_kind: Option<CompressorKind>,
}

/// The settings of a host that passed [`HostBuilder::build`].
pub struct HostConfig {
    /// The address to listen on. A host without one cannot be connected to.
    pub addr: Option<Address>,
    /// The number of peers to allocate for the host.
    pub peer_count: usize,
    /// The largest number of channels of a connection.
    pub channel_limit: usize,
    /// Incoming bandwidth limit.
    pub incoming_bandwidth: u32,
    /// Outgoing bandwidth limit.
    pub outgoing_bandwidth: u32,
    /// Packet compressor, if any.
    pub compressor_kind: Option<CompressorKind>,
}

impl BuilderView {
    /// The settings before any was made.
    pub open spec fn unset() -> BuilderView {
        BuilderView {
            addr: None,
            peer_count: None,
            channel_limit: None,
            incoming_bandwidth: None,
            outgoing_bandwidth: None,
            compressor_kind: None,
        }
    }

    /// The first reason, in the order in which the settings are judged, for
    /// which no host can be built: an address that did not resolve, then a
    /// peer count, a channel limit, an incoming and an outgoing bandwidth
    /// that were set to zero.
    pub open spec fn fault(self) -> Option<Error> {
        if self.addr is Some && self.addr->0 is Err {
            Some(Error::Io(self.addr->0->Err_0))
        } else if self.peer_count == Some(0usize) || self.channel_limit == Some(0usize)
            || self.incoming_bandwidth == Some(0u32) || self.outgoing_bandwidth == Some(0u32) {
            Some(Error::InvalidArgument)
        } else {
            None
        }
    }

    /// The settings of the host that is built where nothing is at fault:
    /// what was set, and one peer, one channel and a bandwidth of one for
    /// what was not.
    pub open spec fn config(self) -> HostConfig {
        HostConfig {
            addr: match self.addr {
                Some(Ok(addr)) => Some(addr),
                _ => None,
            },
            peer_count: match self.peer_count {
                Some(n) => n,
                None => 1,
            },
            channel_limit: match self.channel_limit {
                Some(n) => n,
                None => 1,
            },
            incoming_bandwidth: match self.incoming_bandwidth {
                Some(n) => n,
                None => 1,
            },
            outgoing_bandwidth: match self.outgoing_bandwidth {
                Some(n) => n,
                None => 1,
            },
            compressor_kind: self.compressor_kind,
        }
    }
}

/// Collects the settings of a host and judges them.
pub struct HostBuilder<T> {
    addr: Option<Result<Address, std::io::Error>>,
    peer_count: Option<usize>,
    channel_limit: Option<usize>,
    incoming_bandwidth: Option<u32>,
    outgoing_bandwidth: Option<u32>,
    compressor_kind: Option<CompressorKind>,
    _data: PhantomData<T>,
}

impl<T> View for HostBuilder<T> {
    type V = BuilderView;

    closed spec fn view(&self) -> BuilderView {
        BuilderView {
            addr: self.addr,
            peer_count: self.peer_count,
            channel_limit: self.channel_limit,
            incoming_bandwidth: self.incoming_bandwidth,
            outgoing_bandwidth: self.outgoing_bandwidth,
            compressor_kind: self.compressor_kind,
        }
    }
}

impl<T> Default for HostBuilder<T> {
    /// A builder in which nothing is set.
    fn default() -> (builder: Self)
        ensures
            builder@ == BuilderView::unset(),
    {
        HostBuilder {
            addr: None,
            peer_count: None,
            channel_limit: None,
            incoming_bandwidth: None,
            outgoing_bandwidth: None,
            compressor_kind: None,
            _data: PhantomData,
        }
    }
}

impl<T> HostBuilder<T> {
    /// The address to listen on, where `resolved` is what its resolution
    /// yielded. The first resolved IPv4 address will be used; if there is
    /// none among them, the setting stays as it was. A failed resolution is
    /// kept and reported by [`HostBuilder::build`].
    ///
    /// By default, no address is set and thus the host can't be used as a
    /// server.
    pub fn addr(self, resolved: Result<Vec<SocketAddress>, std::io::Error>) -> (builder: Self)
        ensures
            builder@ == (BuilderView {
                addr: match resolved {
                    Err(err) => Some(Err(err)),
                    Ok(addrs) => match first_v4(addrs@) {
                        Some(addr) => Some(Ok(addr)),
                        None => self@.addr,
                    },
                },
                ..self@
            }),
    {
        let mut builder = self;
        match resolved {
            Err(err) => {
                builder.addr = Some(Err(err));
            },
            Ok(addrs) => {
                match select_v4(addrs.as_slice()) {
                    Some(addr) => {
                        builder.addr = Some(Ok(addr));
                    },
                    None => {},
                }
            },
        }
        builder
    }

    /// The maximum number of peers to allocate for the host. Default is 1.
    ///
    /// The value has to be non-zero.
    pub fn peer_count(self, value: usize) -> (builder: Self)
        ensures
            builder@ == (BuilderView { peer_count: Some(value), ..self@ }),
    {
        let mut builder = self;
        builder.peer_count = Some(value);
        builder
    }

    /// The maximum number of channels to allocate for the host. Default is 1;
    /// there can be up to [`MAXIMUM_CHANNEL_COUNT`].
    ///
    /// The value has to be non-zero.
    pub fn channel_limit(self, value: usize) -> (builder: Self)
        ensures
            builder@ == (BuilderView { channel_limit: Some(value), ..self@ }),
    {
        let mut builder = self;
        builder.channel_limit = Some(value);
        builder
    }

    /// Incoming bandwidth limit. Default is 1.
    ///
    /// The value has to be non-zero.
    pub fn incoming_bandwidth(self, value: u32) -> (builder: Self)
        ensures
            builder@ == (BuilderView { incoming_bandwidth: Some(value), ..self@ }),
    {
        let mut builder = self;
        builder.incoming_bandwidth = Some(value);
        builder
    }

    /// Outgoing bandwidth limit. Default is 1.
    ///
    /// The value has to be non-zero.
    pub fn outgoing_bandwidth(self, value: u32) -> (builder: Self)
        ensures
            builder@ == (BuilderView { outgoing_bandwidth: Some(value), ..self@ }),
    {
        let mut builder = self;
        builder.outgoing_bandwidth = Some(value);
        builder
    }

    /// Packet compressor. Default is uncompressed.
    pub fn compressor(self, value: CompressorKind) -> (builder: Self)
        ensures
            builder@ == (BuilderView { compressor_kind: Some(value), ..self@ }),
    {
        let mut builder = self;
        builder.compressor_kind = Some(value);
        builder
    }

    /// Judges the configuration, before anything is asked of the native
    /// engine. The result is what the native host is created with, or the
    /// first fault that [`BuilderView::fault`] finds.
    pub fn build(self) -> (r: Result<HostConfig, Error>)
        ensures
            r == match self@.fault() {
                Some(error) => Err::<HostConfig, Error>(error),
                None => Ok(self@.config()),
            },
    {
        let addr = match self.addr {
            Some(Ok(addr)) => Some(addr),
            Some(Err(err)) => {
                return Err(Error::from(err));
            },
            None => None,
        };
        let peer_count = match self.peer_count {
            Some(0) => {
                return Err(Error::InvalidArgument);
            },
            Some(peer_count) => peer_count,
            None => 1,
        };
        let channel_limit = match self.channel_limit {
            Some(0) => {
                return Err(Error::InvalidArgument);
            },
            Some(channel_limit) => channel_limit,
            None => 1,
        };
        let incoming_bandwidth = match self.incoming_bandwidth {
            Some(0) => {
                return Err(Error::InvalidArgument);
            },
            Some(incoming_bandwidth) => incoming_bandwidth,
            None => 1,
        };
        let outgoing_bandwidth = match self.outgoing_bandwidth {
            Some(0) => {
                return Err(Error::InvalidArgument);
            },
            Some(outgoing_bandwidth) => outgoing_bandwidth,
            None => 1,
        };
        Ok(
            HostConfig {
                addr,
                peer_count,
                channel_limit,
                incoming_bandwidth,
                outgoing_bandwidth,
                compressor_kind: self.compressor_kind,
            },
        )
    }
}

} // verus!
