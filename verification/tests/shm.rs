use wayoa::ids::IdRegistry;
use wayoa::protocol::shm::{
    ShmBuffer, ShmBufferId, ShmError, ShmFormat, ShmPool, ShmPoolId, WlShmHandler,
};

#[test]
fn test_shm_format() {
    assert_eq!(ShmFormat::from_wayland(0), ShmFormat::Argb8888);
    assert_eq!(ShmFormat::Argb8888.to_wayland(), 0);
    assert_eq!(ShmFormat::Argb8888.bytes_per_pixel(), 4);
}

#[test]
fn test_shm_buffer() {
    let mut ids = IdRegistry::new();
    let buffer = ShmBuffer::new(&mut ids, ShmPoolId(1), 0, 100, 100, 400, ShmFormat::Argb8888);
    assert_eq!(buffer.data_size(), 40000);
}

#[test]
fn test_shm_handler() {
    let mut handler = WlShmHandler::new();
    let formats = handler.formats();
    assert!(formats.contains(&ShmFormat::Argb8888));

    // Create pool with a fake fd (-1 for testing)
    let pool_id = handler.create_pool(-1, 40000);
    assert!(handler.get_pool(pool_id).is_some());

    // Create buffer
    let buffer_id = handler.create_buffer(pool_id, 0, 100, 100, 400, 0).unwrap();
    assert!(handler.get_buffer(buffer_id).is_some());
}

#[test]
fn formats_round_trip_through_their_codes() {
    assert_eq!(ShmFormat::from_wayland(1), ShmFormat::Xrgb8888);
    assert_eq!(ShmFormat::from_wayland(0x34325258), ShmFormat::Other(0x34325258));
    for code in [0u32, 1, 2, 875713112, u32::MAX] {
        assert_eq!(ShmFormat::from_wayland(code).to_wayland(), code);
    }
    assert_eq!(ShmFormat::Xrgb8888.bytes_per_pixel(), 4);
    assert_eq!(ShmFormat::Other(9).bytes_per_pixel(), 4);
    let handler = WlShmHandler::new();
    assert_eq!(handler.formats(), vec![ShmFormat::Argb8888, ShmFormat::Xrgb8888]);
}

#[test]
fn a_stride_below_four_bytes_a_pixel_is_refused() {
    let mut handler = WlShmHandler::new();
    let pool = handler.create_pool(3, 1 << 20);
    assert_eq!(handler.create_buffer(pool, 0, 100, 100, 300, 0), Err(ShmError::InvalidStride));
    assert_eq!(handler.create_buffer(pool, 0, 100, 100, 399, 0), Err(ShmError::InvalidStride));
    assert!(handler.create_buffer(pool, 0, 100, 100, 400, 0).is_ok());
    assert_eq!(handler.create_buffer(pool, 0, 0, 100, 400, 0), Err(ShmError::InvalidStride));
    assert_eq!(handler.create_buffer(pool, 0, 100, 0, 400, 0), Err(ShmError::InvalidStride));
    assert_eq!(
        handler.create_buffer(pool, 0, u32::MAX, 1, u32::MAX, 0),
        Err(ShmError::InvalidStride)
    );
}

#[test]
fn a_buffer_has_to_end_inside_its_pool() {
    let mut handler = WlShmHandler::new();
    let pool = handler.create_pool(3, 40000);
    assert_eq!(handler.create_buffer(pool, 1, 100, 100, 400, 0), Err(ShmError::BufferTooLarge));
    assert_eq!(handler.create_buffer(pool, 0, 100, 101, 400, 0), Err(ShmError::BufferTooLarge));
    assert_eq!(
        handler.create_buffer(pool, u32::MAX, 1, u32::MAX, u32::MAX, 1),
        Err(ShmError::BufferTooLarge)
    );
    let id = handler.create_buffer(pool, 400, 100, 99, 400, 1).unwrap();
    let buffer = handler.get_buffer(id).unwrap();
    assert_eq!((buffer.offset, buffer.width, buffer.height, buffer.stride), (400, 100, 99, 400));
    assert_eq!(buffer.format, ShmFormat::Xrgb8888);
    assert_eq!(buffer.pool_id, pool);
    assert_eq!(buffer.data_size(), 39600);
    assert_eq!(handler.create_buffer(ShmPoolId(9), 0, 1, 1, 4, 0), Err(ShmError::InvalidPool));
}

#[test]
fn pools_grow_and_never_shrink() {
    let mut ids = IdRegistry::new();
    let mut pool = ShmPool::new(&mut ids, 5, 100);
    assert_eq!((pool.id, pool.fd, pool.size), (ShmPoolId(1), 5, 100));
    assert!(!pool.mapped);
    pool.mark_mapped();
    pool.resize(50);
    assert_eq!(pool.size, 100);
    assert!(pool.mapped);
    pool.resize(100);
    assert!(pool.mapped);
    pool.resize(200);
    assert_eq!(pool.size, 200);
    // A pool that has grown has to be mapped anew.
    assert!(!pool.mapped);

    let mut handler = WlShmHandler::new();
    let id = handler.create_pool(5, 100);
    assert_eq!(handler.create_buffer(id, 0, 10, 10, 40, 0), Err(ShmError::BufferTooLarge));
    assert_eq!(handler.resize_pool(id, 400), Ok(()));
    assert!(handler.create_buffer(id, 0, 10, 10, 40, 0).is_ok());
    assert_eq!(handler.resize_pool(id, 10), Ok(()));
    assert_eq!(handler.get_pool(id).unwrap().size, 400);
    assert_eq!(handler.resize_pool(ShmPoolId(8), 10), Err(ShmError::InvalidPool));
    assert_eq!(handler.mark_pool_mapped(id), Ok(()));
    assert!(handler.get_pool(id).unwrap().mapped);
    assert_eq!(handler.resize_pool(id, 401), Ok(()));
    assert!(!handler.get_pool(id).unwrap().mapped);
    assert_eq!(handler.mark_pool_mapped(ShmPoolId(8)), Err(ShmError::InvalidPool));
}

#[test]
fn buffers_outlive_their_pool() {
    let mut handler = WlShmHandler::new();
    assert!(handler.has_room_for_pool() && handler.has_room_for_buffer());
    let pool = handler.create_pool(5, 400);
    let buffer = handler.create_buffer(pool, 0, 10, 10, 40, 0).unwrap();
    handler.destroy_pool(pool);
    assert!(handler.get_pool(pool).is_none());
    assert!(handler.get_buffer(buffer).is_some());
    assert_eq!(handler.create_buffer(pool, 0, 10, 10, 40, 0), Err(ShmError::InvalidPool));
    handler.destroy_buffer(buffer);
    assert!(handler.get_buffer(buffer).is_none());
    handler.destroy_buffer(ShmBufferId(12));
}

#[test]
fn shm_errors_in_words() {
    assert_eq!(ShmError::InvalidPool.message(), "Invalid pool");
    assert_eq!(ShmError::BufferTooLarge.message(), "Buffer too large for pool");
    assert_eq!(ShmError::InvalidStride.message(), "Invalid stride");
    assert_eq!(ShmError::InvalidFormat.message(), "Invalid format");
}

#[test]
fn pool_and_buffer_identities_are_unique() {
    let mut ids = IdRegistry::new();
    assert_ne!(ShmPoolId::new(&mut ids), ShmPoolId::new(&mut ids));
    assert_ne!(ShmBufferId::new(&mut ids), ShmBufferId::new(&mut ids));
}
