//! Shared-memory pools and the buffers carved from them.
//!
//! A pool is a client's shared-memory region: a file descriptor and a
//! length. A buffer is a rectangle of pixels inside one pool. A buffer is
//! only created where its rows fit its stride and its bytes fit the pool.

use std::collections::HashMap;
use vstd::prelude::*;
use crate::ids::IdRegistry;

verus! {

broadcast use vstd::std_specs::hash::group_hash_axioms;

/// Unique identifier for shm pools
#[derive(Debug, Clone, Copy, PartialEq, Eq, Hash, Structural)]
pub struct ShmPoolId(pub u64);

impl ShmPoolId {
    /// Takes the next unused identity from `ids`.
    pub fn new(ids: &mut IdRegistry) -> (id: Self)
        requires
            old(ids).wf(),
            old(ids).has_room(),
        ensures
            id.0 == old(ids).next_id(),
            !old(ids).issued().contains(id.0),
            final(ids).next_id() == old(ids).next_id() + 1,
            final(ids).wf(),
    {
        ShmPoolId(ids.allocate())
    }
}

/// Unique identifier for shm buffers
#[derive(Debug, Clone, Copy, PartialEq, Eq, Hash, Structural)]
pub struct ShmBufferId(pub u64);

impl ShmBufferId {
    /// Takes the next unused identity from `ids`.
    pub fn new(ids: &mut IdRegistry) -> (id: Self)
        requires
            old(ids).wf(),
            old(ids).has_room(),
        ensures
            id.0 == old(ids).next_id(),
            !old(ids).issued().contains(id.0),
            final(ids).next_id() == old(ids).next_id() + 1,
            final(ids).wf(),
    {
        ShmBufferId(ids.allocate())
    }
}

/// Supported pixel formats
#[derive(Debug, Clone, Copy, PartialEq, Eq, Structural)]
pub enum ShmFormat {
    /// 32-bit ARGB (A in high byte)
    Argb8888,
    /// 32-bit XRGB (X in high byte, alpha ignored)
    Xrgb8888,
    /// Other format with raw value
    Other(u32),
}

impl ShmFormat {
    /// The format that a protocol code names.
    pub open spec fn of_code(code: u32) -> ShmFormat {
        if code == 0 {
            ShmFormat::Argb8888
        } else if code == 1 {
            ShmFormat::Xrgb8888
        } else {
            ShmFormat::Other(code)
        }
    }

    /// The protocol code of a format.
    pub open spec fn code(self) -> u32 {
        match self {
            ShmFormat::Argb8888 => 0,
            ShmFormat::Xrgb8888 => 1,
            ShmFormat::Other(v) => v,
        }
    }

    /// Bytes that one pixel takes. Every format is taken to be 32 bits
    /// wide.
    pub open spec fn pixel_bytes(self) -> u32 {
        4
    }

    /// Create from Wayland format value
    pub fn from_wayland(format: u32) -> (r: Self)
        ensures
            r == Self::of_code(format),
    {
        if format == 0 {
            ShmFormat::Argb8888
        } else if format == 1 {
            ShmFormat::Xrgb8888
        } else {
            ShmFormat::Other(format)
        }
    }

    /// Convert to Wayland format value
    pub fn to_wayland(&self) -> (code: u32)
        ensures
            code == self.code(),
    {
        match self {
            ShmFormat::Argb8888 => 0,
            ShmFormat::Xrgb8888 => 1,
            ShmFormat::Other(v) => *v,
        }
    }

    /// Get bytes per pixel
    pub fn bytes_per_pixel(&self) -> (n: u32)
        ensures
            n == self.pixel_bytes(),
    {
        4
    }

    /// A code read as a format and written back is the same code.
    pub proof fn lemma_code_round_trip(code: u32)
        ensures
            Self::of_code(code).code() == code,
    {
    }

    /// A format written as a code and read back is the same format, but
    /// for `Other(0)` and `Other(1)`, which read back as the two named
    /// formats.
    pub proof fn lemma_format_round_trip(format: ShmFormat)
        ensures
            Self::of_code(format.code()) == (match format {
                ShmFormat::Other(v) => Self::of_code(v),
                _ => format,
            }),
            !(format matches ShmFormat::Other(v) && v <= 1) ==> Self::of_code(format.code())
                == format,
    {
    }
}

/// A shared memory pool
#[derive(Debug)]
pub struct ShmPool {
    /// Unique identifier
    pub id: ShmPoolId,
    /// File descriptor for the shared memory
    pub fd: i32,
    /// Size of the pool in bytes
    pub size: usize,
    /// Whether the pool's memory is mapped. A pool is mapped when it is
    /// first read, and a pool that has grown has to be mapped anew.
    pub mapped: bool,
}

impl ShmPool {
    /// Create a new shm pool
    pub fn new(ids: &mut IdRegistry, fd: i32, size: usize) -> (pool: Self)
        requires
            old(ids).wf(),
            old(ids).has_room(),
        ensures
            pool == (ShmPool { id: ShmPoolId(old(ids).next_id()), fd, size, mapped: false }),
            final(ids).next_id() == old(ids).next_id() + 1,
            final(ids).wf(),
    {
        ShmPool { id: ShmPoolId::new(ids), fd, size, mapped: false }
    }

    /// Resize the pool. A pool only grows: a smaller size is ignored. A
    /// pool that has grown is no longer mapped.
    pub fn resize(&mut self, new_size: usize)
        ensures
            *final(self) == old(self).resized(new_size),
    {
        if new_size > self.size {
            self.size = new_size;
            // Re-map will happen on next access
            self.mapped = false;
        }
    }

    /// The pool after a resize to `new_size`.
    pub open spec fn resized(self, new_size: usize) -> ShmPool {
        if new_size > self.size {
            ShmPool { size: new_size, mapped: false, ..self }
        } else {
            self
        }
    }

    /// Notes that the pool's memory is mapped.
    pub fn mark_mapped(&mut self)
        ensures
            *final(self) == (ShmPool { mapped: true, ..*old(self) }),
    {
        self.mapped = true;
    }
}

/// A buffer created from an shm pool
#[derive(Debug, Clone, Copy)]
pub struct ShmBuffer {
    /// Unique identifier
    pub id: ShmBufferId,
    /// Parent pool
    pub pool_id: ShmPoolId,
    /// Offset into the pool
    pub offset: u32,
    /// Width in pixels
    pub width: u32,
    /// Height in pixels
    pub height: u32,
    /// Stride (bytes per row)
    pub stride: u32,
    /// Pixel format
    pub format: ShmFormat,
}

impl ShmBuffer {
    /// Bytes from the first row to the end of the last.
    pub open spec fn byte_len(&self) -> int {
        self.stride * self.height
    }

    /// The first byte after the buffer, counted from the start of its
    /// pool.
    pub open spec fn end(&self) -> int {
        self.offset + self.stride * self.height
    }

    /// The buffer has pixels and every row has room for them.
    pub open spec fn geometry_ok(&self) -> bool {
        &&& self.width > 0
        &&& self.height > 0
        &&& self.stride >= self.width * self.format.pixel_bytes()
    }

    /// Create a new buffer
    pub fn new(
        ids: &mut IdRegistry,
        pool_id: ShmPoolId,
        offset: u32,
        width: u32,
        height: u32,
        stride: u32,
        format: ShmFormat,
    ) -> (buffer: Self)
        requires
            old(ids).wf(),
            old(ids).has_room(),
        ensures
            buffer == (ShmBuffer {
                id: ShmBufferId(old(ids).next_id()),
                pool_id,
                offset,
                width,
                height,
                stride,
                format,
            }),
            final(ids).next_id() == old(ids).next_id() + 1,
            final(ids).wf(),
    {
        ShmBuffer { id: ShmBufferId::new(ids), pool_id, offset, width, height, stride, format }
    }

    /// Get the size of the buffer data in bytes
    pub fn data_size(&self) -> (n: usize)
        requires
            self.byte_len() <= usize::MAX,
        ensures
            n == self.byte_len(),
    {
        let bytes: u64 = self.stride as u64 * self.height as u64;
        proof {
            assert(self.stride as u64 * self.height as u64 <= 0xffff_ffff * 0xffff_ffff)
                by (nonlinear_arith)
                requires
                    self.stride as u64 <= 0xffff_ffff,
                    self.height as u64 <= 0xffff_ffff,
            ;
        }
        bytes as usize
    }
}

/// SHM errors
#[derive(Debug, Clone, Copy, PartialEq, Eq, Structural)]
pub enum ShmError {
    InvalidPool,
    BufferTooLarge,
    InvalidStride,
    InvalidFormat,
}

impl ShmError {
    /// The error in words.
    pub fn message(&self) -> (text: &'static str)
        ensures
            text@ == (match self {
                ShmError::InvalidPool => "Invalid pool"@,
                ShmError::BufferTooLarge => "Buffer too large for pool"@,
                ShmError::InvalidStride => "Invalid stride"@,
                ShmError::InvalidFormat => "Invalid format"@,
            }),
    {
        match self {
            ShmError::InvalidPool => "Invalid pool",
            ShmError::BufferTooLarge => "Buffer too large for pool",
            ShmError::InvalidStride => "Invalid stride",
            ShmError::InvalidFormat => "Invalid format",
        }
    }
}

/// Handler for wl_shm protocol
#[derive(Debug)]
pub struct WlShmHandler {
    pools: HashMap<u64, ShmPool>,
    buffers: HashMap<u64, ShmBuffer>,
    pool_ids: IdRegistry,
    buffer_ids: IdRegistry,
}

impl WlShmHandler {
    /// The pools by the number of their identity.
    pub closed spec fn pools(&self) -> Map<u64, ShmPool> {
        self.pools@
    }

    /// The buffers by the number of their identity.
    pub closed spec fn buffers(&self) -> Map<u64, ShmBuffer> {
        self.buffers@
    }

    /// The registry that issues pool identities.
    pub closed spec fn pool_registry(&self) -> IdRegistry {
        self.pool_ids
    }

    /// The registry that issues buffer identities.
    pub closed spec fn buffer_registry(&self) -> IdRegistry {
        self.buffer_ids
    }

    /// Pools and buffers are stored under their own identities; every
    /// buffer has pixels, rows that fit its stride, and a pool that was
    /// issued; and while its pool lives, the buffer ends inside it.
    pub open spec fn wf(&self) -> bool {
        &&& self.pool_registry().wf()
        &&& self.buffer_registry().wf()
        &&& forall|k: u64| #[trigger]
            self.pools().contains_key(k) ==> self.pools()[k].id.0 == k
                && self.pool_registry().issued().contains(k)
        &&& forall|k: u64| #[trigger]
            self.buffers().contains_key(k) ==> {
                let b = self.buffers()[k];
                &&& b.id.0 == k
                &&& self.buffer_registry().issued().contains(k)
                &&& self.pool_registry().issued().contains(b.pool_id.0)
                &&& b.geometry_ok()
                &&& self.fits_pool(b)
            }
    }

    /// While its pool lives, the buffer ends inside it.
    pub open spec fn fits_pool(&self, b: ShmBuffer) -> bool {
        self.pools().contains_key(b.pool_id.0) ==> b.end() <= self.pools()[b.pool_id.0].size
    }

    /// Why a buffer with this geometry cannot be made from this pool, if
    /// it cannot: the pool is unknown; or the buffer has no pixels or its
    /// rows do not fit the stride; or it ends outside the pool.
    pub open spec fn refusal(
        pools: Map<u64, ShmPool>,
        pool_id: ShmPoolId,
        offset: u32,
        width: u32,
        height: u32,
        stride: u32,
        format: u32,
    ) -> Option<ShmError> {
        if !pools.contains_key(pool_id.0) {
            Some(ShmError::InvalidPool)
        } else if width == 0 || height == 0 || stride < width * ShmFormat::of_code(
            format,
        ).pixel_bytes() {
            Some(ShmError::InvalidStride)
        } else if offset + stride * height > pools[pool_id.0].size {
            Some(ShmError::BufferTooLarge)
        } else {
            None
        }
    }

    /// Create a new shm handler
    pub fn new() -> (h: Self)
        ensures
            h.wf(),
            h.pools() == Map::<u64, ShmPool>::empty(),
            h.buffers() == Map::<u64, ShmBuffer>::empty(),
            h.pool_registry().next_id() == 1,
            h.buffer_registry().next_id() == 1,
    {
        WlShmHandler {
            pools: HashMap::new(),
            buffers: HashMap::new(),
            pool_ids: IdRegistry::new(),
            buffer_ids: IdRegistry::new(),
        }
    }

    /// Get supported formats
    pub fn formats(&self) -> (f: Vec<ShmFormat>)
        ensures
            f@ == seq![ShmFormat::Argb8888, ShmFormat::Xrgb8888],
    {
        let mut f: Vec<ShmFormat> = Vec::new();
        f.push(ShmFormat::Argb8888);
        f.push(ShmFormat::Xrgb8888);
        assert(f@ =~= seq![ShmFormat::Argb8888, ShmFormat::Xrgb8888]);
        f
    }

    /// Whether another pool can be created.
    pub fn has_room_for_pool(&self) -> (b: bool)
        ensures
            b == self.pool_registry().has_room(),
    {
        self.pool_ids.can_allocate()
    }

    /// Whether another buffer can be created.
    pub fn has_room_for_buffer(&self) -> (b: bool)
        ensures
            b == self.buffer_registry().has_room(),
    {
        self.buffer_ids.can_allocate()
    }

    /// Create a new shm pool
    pub fn create_pool(&mut self, fd: i32, size: usize) -> (id: ShmPoolId)
        requires
            old(self).wf(),
            old(self).pool_registry().has_room(),
        ensures
            id.0 == old(self).pool_registry().next_id(),
            !old(self).pools().contains_key(id.0),
            final(self).pools() == old(self).pools().insert(
                id.0,
                ShmPool { id, fd, size, mapped: false },
            ),
            final(self).buffers() == old(self).buffers(),
            final(self).buffer_registry() == old(self).buffer_registry(),
            final(self).pool_registry().next_id() == old(self).pool_registry().next_id() + 1,
            final(self).wf(),
    {
        let pool = ShmPool::new(&mut self.pool_ids, fd, size);
        let id = pool.id;
        self.pools.insert(id.0, pool);
        assert(self.pools() == old(self).pools().insert(id.0, pool));
        assert(self.buffers() == old(self).buffers());
        id
    }

    /// Resize a pool. A pool only grows: a smaller size leaves it as it
    /// is.
    pub fn resize_pool(&mut self, pool_id: ShmPoolId, new_size: usize) -> (r: Result<(), ShmError>)
        requires
            old(self).wf(),
        ensures
            final(self).buffers() == old(self).buffers(),
            final(self).pool_registry() == old(self).pool_registry(),
            final(self).buffer_registry() == old(self).buffer_registry(),
            match r {
                Ok(_) => {
                    &&& old(self).pools().contains_key(pool_id.0)
                    &&& final(self).pools() == old(self).pools().insert(
                        pool_id.0,
                        old(self).pools()[pool_id.0].resized(new_size),
                    )
                },
                Err(e) => {
                    &&& e == ShmError::InvalidPool
                    &&& !old(self).pools().contains_key(pool_id.0)
                    &&& final(self).pools() == old(self).pools()
                },
            },
            final(self).wf(),
    {
        match self.pools.remove(&pool_id.0) {
            Some(mut pool) => {
                pool.resize(new_size);
                self.pools.insert(pool_id.0, pool);
                assert(self.pools@ =~= old(self).pools@.insert(pool_id.0, pool));
                Ok(())
            },
            None => {
                assert(self.pools@ =~= old(self).pools@);
                Err(ShmError::InvalidPool)
            },
        }
    }

    /// Notes that the memory of a pool is mapped.
    pub fn mark_pool_mapped(&mut self, pool_id: ShmPoolId) -> (r: Result<(), ShmError>)
        requires
            old(self).wf(),
        ensures
            final(self).buffers() == old(self).buffers(),
            final(self).pool_registry() == old(self).pool_registry(),
            final(self).buffer_registry() == old(self).buffer_registry(),
            match r {
                Ok(_) => {
                    &&& old(self).pools().contains_key(pool_id.0)
                    &&& final(self).pools() == old(self).pools().insert(
                        pool_id.0,
                        ShmPool { mapped: true, ..old(self).pools()[pool_id.0] },
                    )
                },
                Err(e) => {
                    &&& e == ShmError::InvalidPool
                    &&& !old(self).pools().contains_key(pool_id.0)
                    &&& final(self).pools() == old(self).pools()
                },
            },
            final(self).wf(),
    {
        match self.pools.remove(&pool_id.0) {
            Some(mut pool) => {
                pool.mark_mapped();
                self.pools.insert(pool_id.0, pool);
                assert(self.pools@ =~= old(self).pools@.insert(pool_id.0, pool));
                Ok(())
            },
            None => {
                assert(self.pools@ =~= old(self).pools@);
                Err(ShmError::InvalidPool)
            },
        }
    }

    /// Destroy a pool. Buffers made from it stay.
    pub fn destroy_pool(&mut self, pool_id: ShmPoolId)
        requires
            old(self).wf(),
        ensures
            final(self).pools() == old(self).pools().remove(pool_id.0),
            final(self).buffers() == old(self).buffers(),
            final(self).pool_registry() == old(self).pool_registry(),
            final(self).buffer_registry() == old(self).buffer_registry(),
            final(self).wf(),
    {
        self.pools.remove(&pool_id.0);
        assert(self.pools() == old(self).pools().remove(pool_id.0));
        assert(self.buffers() == old(self).buffers());
    }

    /// Create a buffer from a pool
    pub fn create_buffer(
        &mut self,
        pool_id: ShmPoolId,
        offset: u32,
        width: u32,
        height: u32,
        stride: u32,
        format: u32,
    ) -> (r: Result<ShmBufferId, ShmError>)
        requires
            old(self).wf(),
            old(self).buffer_registry().has_room(),
        ensures
            final(self).pools() == old(self).pools(),
            final(self).pool_registry() == old(self).pool_registry(),
            match r {
                Ok(id) => {
                    &&& Self::refusal(
                        old(self).pools(),
                        pool_id,
                        offset,
                        width,
                        height,
                        stride,
                        format,
                    ) is None
                    &&& id.0 == old(self).buffer_registry().next_id()
                    &&& !old(self).buffers().contains_key(id.0)
                    &&& final(self).buffers() == old(self).buffers().insert(
                        id.0,
                        ShmBuffer {
                            id,
                            pool_id,
                            offset,
                            width,
                            height,
                            stride,
                            format: ShmFormat::of_code(format),
                        },
                    )
                    &&& offset + stride * height <= old(self).pools()[pool_id.0].size
                    &&& final(self).buffer_registry().next_id() == old(self).buffer_registry().next_id() + 1
                },
                Err(e) => {
                    &&& Self::refusal(
                        old(self).pools(),
                        pool_id,
                        offset,
                        width,
                        height,
                        stride,
                        format,
                    ) == Some(e)
                    &&& *final(self) == *old(self)
                },
            },
            final(self).wf(),
    {
        let pool_size: usize = match self.pools.get(&pool_id.0) {
            Some(pool) => pool.size,
            None => {
                return Err(ShmError::InvalidPool);
            },
        };
        let format = ShmFormat::from_wayland(format);

        let min_stride: u64 = width as u64 * 4;
        if width == 0 || height == 0 || (stride as u64) < min_stride {
            return Err(ShmError::InvalidStride);
        }
        proof {
            assert(stride as u64 * height as u64 <= 0xffff_ffff * 0xffff_ffff) by (nonlinear_arith)
                requires
                    stride as u64 <= 0xffff_ffff,
                    height as u64 <= 0xffff_ffff,
            ;
        }
        let buffer_end: u64 = offset as u64 + stride as u64 * height as u64;
        if buffer_end > pool_size as u64 {
            return Err(ShmError::BufferTooLarge);
        }
        let buffer = ShmBuffer::new(
            &mut self.buffer_ids,
            pool_id,
            offset,
            width,
            height,
            stride,
            format,
        );
        let id = buffer.id;
        self.buffers.insert(id.0, buffer);
        Ok(id)
    }

    /// Destroy a buffer
    pub fn destroy_buffer(&mut self, buffer_id: ShmBufferId)
        requires
            old(self).wf(),
        ensures
            final(self).buffers() == old(self).buffers().remove(buffer_id.0),
            final(self).pools() == old(self).pools(),
            final(self).pool_registry() == old(self).pool_registry(),
            final(self).buffer_registry() == old(self).buffer_registry(),
            final(self).wf(),
    {
        self.buffers.remove(&buffer_id.0);
        assert(self.buffers() == old(self).buffers().remove(buffer_id.0));
        assert(self.pools() == old(self).pools());
    }

    /// Get a buffer by ID
    pub fn get_buffer(&self, id: ShmBufferId) -> (r: Option<&ShmBuffer>)
        ensures
            match r {
                Some(b) => self.buffers().contains_key(id.0) && *b == self.buffers()[id.0],
                None => !self.buffers().contains_key(id.0),
            },
    {
        self.buffers.get(&id.0)
    }

    /// Get a pool by ID
    pub fn get_pool(&self, id: ShmPoolId) -> (r: Option<&ShmPool>)
        ensures
            match r {
                Some(p) => self.pools().contains_key(id.0) && *p == self.pools()[id.0],
                None => !self.pools().contains_key(id.0),
            },
    {
        self.pools.get(&id.0)
    }
}

impl Default for WlShmHandler {
    fn default() -> (h: Self)
        ensures
            h.wf(),
            h.pools() == Map::<u64, ShmPool>::empty(),
            h.buffers() == Map::<u64, ShmBuffer>::empty(),
    {
        WlShmHandler::new()
    }
}

} // verus!
