//! Byte layout of a shared region: `[control block][user data]`.
use vstd::prelude::*;

verus! {

/// libc's `pthread_rwlock_t`, held opaque: the library only needs its size,
/// and the lock is operated on outside the verified code.
#[verifier::external_type_specification]
#[verifier::external_body]
pub struct ExRwLock(libc::pthread_rwlock_t);

/// The control block placed at offset 0 of every region. All processes that
/// map the region see the same lock through it.
pub struct MemCtl {
    /// Lock controlling the access to the user data.
    pub rw_lock: libc::pthread_rwlock_t,
}

/// Size in bytes of the control block.
pub open spec fn ctl_size() -> nat {
    vstd::layout::size_of::<MemCtl>()
}

/// Largest byte length a mapping may have.
pub open spec fn max_region_len() -> nat {
    isize::MAX as nat
}

/// Size in bytes of the control block, as laid out in this process.
pub fn control_block_size() -> (r: usize)
    ensures
        r as nat == ctl_size(),
{
    core::mem::size_of::<MemCtl>()
}

/// Total length of a region whose user data holds `user_size` bytes, or `None`
/// when that length exceeds what a mapping can hold.
pub fn region_len(user_size: usize) -> (r: Option<usize>)
    ensures
        r.is_some() <==> user_size + ctl_size() <= max_region_len(),
        r.is_some() ==> r.unwrap() as nat == user_size + ctl_size(),
{
    let ctl = control_block_size();
    if user_size <= isize::MAX as usize && ctl <= isize::MAX as usize - user_size {
        Some(user_size + ctl)
    } else {
        None
    }
}

/// Length of the user data of a region of `region_size` bytes, or `None` when
/// the region is too small to hold the control block.
pub fn user_len(region_size: usize) -> (r: Option<usize>)
    ensures
        r.is_some() <==> region_size >= ctl_size(),
        r.is_some() ==> r.unwrap() as nat + ctl_size() == region_size,
{
    let ctl = control_block_size();
    if region_size >= ctl {
        Some(region_size - ctl)
    } else {
        None
    }
}

/// A view of `count` values of type `T`, starting `start_offset` bytes into the
/// user data of `user_size` bytes, lies inside the user data and is aligned
/// for `T` (the mapping itself starts on a page boundary).
pub open spec fn view_fits<T>(user_size: nat, start_offset: nat, count: nat) -> bool {
    &&& start_offset + count * vstd::layout::size_of::<T>() <= user_size
    &&& (ctl_size() + start_offset) % vstd::layout::align_of::<T>() == 0
}

/// Offset, from the start of the mapping, of a view of `count` values of type
/// `T` that starts `start_offset` bytes into the user data; `None` when the
/// view does not fit in `user_size` bytes of user data or is misaligned.
pub fn view_offset<T>(user_size: usize, start_offset: usize, count: usize) -> (r: Option<usize>)
    ensures
        r.is_some() <==> view_fits::<T>(user_size as nat, start_offset as nat, count as nat)
            && ctl_size() + user_size <= usize::MAX,
        r.is_some() ==> r.unwrap() as nat == ctl_size() + start_offset,
{
    proof {
        broadcast use vstd::layout::align_nonzero;
    }
    let ctl = control_block_size();
    let size = core::mem::size_of::<T>();
    let align = core::mem::align_of::<T>();
    let bytes = match count.checked_mul(size) {
        Some(b) => b,
        None => {
            assert(count * size > user_size) by (nonlinear_arith)
                requires count * size > usize::MAX, user_size <= usize::MAX;
            return None;
        },
    };
    if start_offset > user_size || bytes > user_size - start_offset {
        return None;
    }
    if ctl > usize::MAX - user_size {
        return None;
    }
    let offset = ctl + start_offset;
    if offset % align != 0 {
        return None;
    }
    Some(offset)
}

/// A slice view over the whole user data, of `n` values of type `T` that fill
/// it exactly, fits, starts where a view of one `T` starts (right after the
/// control block) and ends at the end of the region; the view of one `T`
/// covers its first `size_of::<T>()` bytes.
pub proof fn lemma_full_slice_view<T>(user_size: nat, n: nat)
    requires
        n * vstd::layout::size_of::<T>() == user_size,
        ctl_size() % vstd::layout::align_of::<T>() == 0,
    ensures
        view_fits::<T>(user_size, 0, n),
        n >= 1 ==> view_fits::<T>(user_size, 0, 1),
        ctl_size() + 0 + n * vstd::layout::size_of::<T>() == ctl_size() + user_size,
{
    if n >= 1 {
        assert(1 * vstd::layout::size_of::<T>() <= n * vstd::layout::size_of::<T>()) by (nonlinear_arith)
            requires n >= 1;
    }
}

} // verus!
