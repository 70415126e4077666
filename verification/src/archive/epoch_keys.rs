//! Archive epoch keys: the current epoch's key is derived from the archive
//! root; on rotation the outgoing key is wrapped under the root and kept, so
//! every earlier epoch stays readable.

use vstd::prelude::*;

use crate::crypto::key_bridge::{derive_archive_epoch, derive_archive_root, hkdf_sha256_expand_okm, u64_be};
use crate::crypto::key_wrap::{aes256_kw_wrap, unwrap_key, wrap_key};
use crate::crypto::{CryptoError, Key32};
use crate::Error;
use vstd::string::StringSliceAdditionalSpecFns;

verus! {

/// `K_archive_epoch(epoch)` under `archive_root`, as
/// [`derive_archive_epoch`] derives it.
pub open spec fn epoch_key_of(archive_root: Seq<u8>, epoch: u64) -> Seq<u8> {
    hkdf_sha256_expand_okm(archive_root, "chat-storage/archive-epoch/v1".spec_bytes() + u64_be(epoch))
}

/// Seconds since the Unix epoch, from the system clock (0 when the clock is
/// before the epoch). Nothing is claimed of the value.
#[verifier::external_body]
fn unix_now_secs() -> (r: u64) {
    std::time::SystemTime::now().duration_since(std::time::UNIX_EPOCH).unwrap_or_default().as_secs()
}

/// The monthly epoch of a time in seconds: `years * 12 + months`, with
/// 365-day years and 30-day months.
pub open spec fn epoch_for_secs(now: u64) -> int {
    (now / 31536000) * 12 + (now % 31536000) / 2592000
}

/// The monthly epoch of `now_secs`.
pub fn epoch_id_at(now_secs: u64) -> (r: u64)
    ensures
        r == epoch_for_secs(now_secs),
{
    let years = now_secs / 31536000;
    let remaining = now_secs % 31536000;
    let months = remaining / 2592000;
    assert(years <= 584942417355) by (nonlinear_arith)
        requires
            years == now_secs / 31536000,
    ;
    assert(months < 13) by (nonlinear_arith)
        requires
            months == remaining / 2592000,
            remaining < 31536000,
    ;
    years * 12 + months
}

/// The current epoch, from the system clock: the monthly epoch of some
/// time in seconds.
pub fn current_epoch_id() -> (r: u64)
    ensures
        exists|now: u64| r == epoch_for_secs(now),
{
    epoch_id_at(unix_now_secs())
}

/// Archive epoch keys with their wrapped predecessors.
#[derive(Debug)]
pub struct EpochKeyManager {
    archive_root: Key32,
    current_epoch: u64,
    wrapped_prior_epochs: Vec<(u64, Vec<u8>)>,
}

impl EpochKeyManager {
    /// The archive root key.
    pub closed spec fn root(&self) -> Seq<u8> {
        self.archive_root@
    }

    /// The current epoch.
    pub closed spec fn epoch(&self) -> u64 {
        self.current_epoch
    }

    /// The wrapped prior epoch keys, oldest first.
    pub closed spec fn prior(&self) -> Seq<(u64, Vec<u8>)> {
        self.wrapped_prior_epochs@
    }

    /// Every stored entry is the wrapping, under the root, of that epoch's
    /// 32-byte key.
    pub open spec fn prior_keys_wrapped(&self) -> bool {
        forall|i: int|
            0 <= i < self.prior().len() ==> {
                let (e, w) = #[trigger] self.prior()[i];
                &&& epoch_key_of(self.root(), e).len() == 32
                &&& w@ == aes256_kw_wrap(self.root(), epoch_key_of(self.root(), e))
                &&& w@.len() == 40
            }
    }

    /// The invariant every manager keeps: [`Self::prior_keys_wrapped`],
    /// over the fields.
    #[verifier::type_invariant]
    closed spec fn keys_wrapped(&self) -> bool {
        forall|i: int|
            0 <= i < self.wrapped_prior_epochs@.len() ==> {
                let (e, w) = #[trigger] self.wrapped_prior_epochs@[i];
                &&& epoch_key_of(self.archive_root@, e).len() == 32
                &&& w@ == aes256_kw_wrap(self.archive_root@, epoch_key_of(self.archive_root@, e))
                &&& w@.len() == 40
            }
    }

    /// The key of epoch `e` can be had: it is the current epoch or a stored
    /// one.
    pub open spec fn has_key(&self, e: u64) -> bool {
        e == self.epoch() || exists|i: int| 0 <= i < self.prior().len() && (#[trigger] self.prior()[i]).0 == e
    }

    /// A manager for the archive root derived from `wrapping_key`, at the
    /// current epoch, with no prior epochs.
    pub fn new(wrapping_key: &Key32) -> (r: Result<Self, CryptoError>)
        ensures
            r matches Ok(m) && m.root() == crate::crypto::key_bridge::hkdf_sha256_okm(
                wrapping_key@,
                "chat-storage/archive-root/v1".spec_bytes(),
            ) && m.prior().len() == 0 && m.prior_keys_wrapped(),
    {
        let archive_root = derive_archive_root(wrapping_key);
        Ok(EpochKeyManager { archive_root, current_epoch: current_epoch_id(), wrapped_prior_epochs: Vec::new() })
    }

    /// A manager for `archive_root` at epoch `epoch`, with no prior epochs.
    pub fn with_root(archive_root: Key32, epoch: u64) -> (r: Self)
        ensures
            r.root() == archive_root@,
            r.epoch() == epoch,
            r.prior().len() == 0,
            r.prior_keys_wrapped(),
    {
        EpochKeyManager { archive_root, current_epoch: epoch, wrapped_prior_epochs: Vec::new() }
    }

    /// The current epoch.
    pub fn current_epoch(&self) -> (r: u64)
        ensures
            r == self.epoch(),
            self.prior_keys_wrapped(),
    {
        proof {
            use_type_invariant(self);
        }
        self.current_epoch
    }

    /// The current epoch's key.
    pub fn current_epoch_key(&self) -> (r: Result<Key32, CryptoError>)
        ensures
            r matches Ok(k) && k@ == epoch_key_of(self.root(), self.epoch()),
    {
        Ok(derive_archive_epoch(&self.archive_root, self.current_epoch))
    }

    /// The key of epoch `epoch_id`: derived for the current epoch, unwrapped
    /// from the stored entry for a prior one, `None` for any other epoch.
    pub fn epoch_key(&self, epoch_id: u64) -> (r: Option<Key32>)
        ensures
            r is Some <==> self.has_key(epoch_id),
            r matches Some(k) ==> k@ == epoch_key_of(self.root(), epoch_id),
            r matches Some(k) ==> (epoch_id != self.epoch() ==> exists|i: int|
                0 <= i < self.prior().len() && (#[trigger] self.prior()[i]).0 == epoch_id
                    && (forall|q: int| 0 <= q < i ==> (#[trigger] self.prior()[q]).0 != epoch_id)
                    && self.prior()[i].1@ == aes256_kw_wrap(self.root(), k@)),
            self.prior_keys_wrapped(),
    {
        proof {
            use_type_invariant(self);
        }
        if epoch_id == self.current_epoch {
            return Some(derive_archive_epoch(&self.archive_root, epoch_id));
        }
        let mut i: usize = 0;
        while i < self.wrapped_prior_epochs.len()
            invariant
                0 <= i <= self.prior().len(),
                epoch_id != self.epoch(),
                forall|q: int| 0 <= q < i ==> (#[trigger] self.prior()[q]).0 != epoch_id,
                forall|q: int|
                    0 <= q < self.prior().len() ==> {
                        let (e, w) = #[trigger] self.prior()[q];
                        &&& epoch_key_of(self.root(), e).len() == 32
                        &&& w@ == aes256_kw_wrap(self.root(), epoch_key_of(self.root(), e))
                        &&& w@.len() == 40
                    },
            decreases self.prior().len() - i,
        {
            let (stored_epoch, wrapped) = &self.wrapped_prior_epochs[i];
            if *stored_epoch == epoch_id {
                assert(self.prior()[i as int].0 == epoch_id);
                let ghost k = epoch_key_of(self.root(), epoch_id);
                assert(aes256_kw_wrap(self.archive_root@, k) == wrapped@);
                return match unwrap_key(&self.archive_root, wrapped.as_slice()) {
                    Ok(k) => Some(k),
                    Err(_) => None,
                };
            }
            i = i + 1;
        }
        None
    }

    /// Rotate to the next epoch: the outgoing epoch's key is wrapped under
    /// the root and stored, then the epoch advances by one. Every key that
    /// could be had before can still be had.
    pub fn rotate(&mut self) -> (r: Result<(), Error>)
        requires
            old(self).epoch() < u64::MAX,
        ensures
            r is Ok,
            final(self).root() == old(self).root(),
            final(self).epoch() == old(self).epoch() + 1,
            final(self).prior().len() == old(self).prior().len() + 1,
            final(self).prior().take(old(self).prior().len() as int) == old(self).prior(),
            final(self).prior().last().0 == old(self).epoch(),
            final(self).prior().last().1@ == aes256_kw_wrap(old(self).root(), epoch_key_of(old(self).root(), old(self).epoch())),
            forall|e: u64| old(self).has_key(e) ==> #[trigger] final(self).has_key(e),
            final(self).prior_keys_wrapped(),
    {
        proof {
            use_type_invariant(&*self);
        }
        let old_key = derive_archive_epoch(&self.archive_root, self.current_epoch);
        let wrapped = match wrap_key(&self.archive_root, &old_key) {
            Ok(w) => w,
            Err(e) => return Err(Error::Crypto(e)),
        };
        let ghost before = self.wrapped_prior_epochs@;
        let entry = (self.current_epoch, wrapped);
        let mut entries: Vec<(u64, Vec<u8>)> = Vec::new();
        std::mem::swap(&mut entries, &mut self.wrapped_prior_epochs);
        entries.push(entry);
        self.wrapped_prior_epochs = entries;
        self.current_epoch = self.current_epoch + 1;
        assert(self.prior().take(before.len() as int) =~= before);
        assert forall|e: u64| old(self).has_key(e) implies #[trigger] self.has_key(e) by {
            if e == old(self).epoch() {
                assert(self.prior()[before.len() as int].0 == e);
            } else {
                let i = choose|i: int| 0 <= i < before.len() && (#[trigger] before[i]).0 == e;
                assert(self.prior()[i] == before[i]);
            }
        }
        Ok(())
    }

    /// The wrapped prior epoch keys, oldest first, for manifest inclusion.
    pub fn wrapped_prior_epochs(&self) -> (r: &[(u64, Vec<u8>)])
        ensures
            r@ == self.prior(),
            self.prior_keys_wrapped(),
    {
        proof {
            use_type_invariant(self);
        }
        self.wrapped_prior_epochs.as_slice()
    }

    /// Keep only the last `max(keep_count, 1)` wrapped prior epochs.
    pub fn prune_old_epochs(&mut self, keep_count: usize)
        ensures
            final(self).root() == old(self).root(),
            final(self).epoch() == old(self).epoch(),
            ({
                let keep = if keep_count >= 1 { keep_count as int } else { 1 };
                let n = old(self).prior().len() as int;
                final(self).prior() == if n > keep { old(self).prior().skip(n - keep) } else { old(self).prior() }
            }),
            final(self).prior_keys_wrapped(),
    {
        proof {
            use_type_invariant(&*self);
        }
        let keep = if keep_count >= 1 { keep_count } else { 1 };
        if self.wrapped_prior_epochs.len() > keep {
            let start = self.wrapped_prior_epochs.len() - keep;
            let ghost before = self.wrapped_prior_epochs@;
            let mut head: Vec<(u64, Vec<u8>)> = Vec::new();
            std::mem::swap(&mut head, &mut self.wrapped_prior_epochs);
            let tail = head.split_off(start);
            assert(tail@ =~= before.skip(start as int));
            assert forall|i: int| 0 <= i < tail@.len() implies #[trigger] tail@[i] == before[i + start] by {}
            self.wrapped_prior_epochs = tail;
        }
    }

    /// Keep only the last 12 wrapped prior epochs.
    pub fn prune_old_epochs_default(&mut self)
        ensures
            final(self).root() == old(self).root(),
            final(self).epoch() == old(self).epoch(),
            ({
                let n = old(self).prior().len() as int;
                final(self).prior() == if n > 12 { old(self).prior().skip(n - 12) } else { old(self).prior() }
            }),
            final(self).prior_keys_wrapped(),
    {
        self.prune_old_epochs(12);
    }
}

} // verus!
