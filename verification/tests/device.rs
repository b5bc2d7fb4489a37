use mer_iot::device::context::DeviceContext;
use mer_iot::device::pool::DevicePool;

#[test]
fn test_device_id_format() {
    let ctx = DeviceContext::new(0, "device");
    assert_eq!(ctx.device_id, "device-0000");
    assert_eq!(ctx.index, 0);
}

#[test]
fn test_device_id_padding() {
    let ctx = DeviceContext::new(42, "sensor");
    assert_eq!(ctx.device_id, "sensor-0042");
    assert_eq!(ctx.index, 42);
}

#[test]
fn test_device_id_large_index() {
    let ctx = DeviceContext::new(9999, "node");
    assert_eq!(ctx.device_id, "node-9999");
}

#[test]
fn test_device_id_very_large_index() {
    let ctx = DeviceContext::new(10000, "dev");
    assert_eq!(ctx.device_id, "dev-10000");
}

#[test]
fn test_custom_prefix() {
    let ctx = DeviceContext::new(1, "factory-machine");
    assert_eq!(ctx.device_id, "factory-machine-0001");
}

#[test]
fn test_pool_creates_correct_count() {
    let pool = DevicePool::new(5, "device");
    assert_eq!(pool.all().len(), 5);
}

#[test]
fn test_pool_device_ids() {
    let pool = DevicePool::new(3, "sensor");
    let ids: Vec<&str> = pool.all().iter().map(|d| d.device_id.as_str()).collect();
    assert_eq!(ids, vec!["sensor-0000", "sensor-0001", "sensor-0002"]);
}

#[test]
fn test_pool_round_robin() {
    let mut pool = DevicePool::new(3, "dev");
    assert_eq!(pool.next().device_id, "dev-0000");
    assert_eq!(pool.next().device_id, "dev-0001");
    assert_eq!(pool.next().device_id, "dev-0002");
    // wraps around
    assert_eq!(pool.next().device_id, "dev-0000");
    assert_eq!(pool.next().device_id, "dev-0001");
}

#[test]
fn test_pool_single_device_always_returns_same() {
    let mut pool = DevicePool::new(1, "solo");
    for _ in 0..5 {
        assert_eq!(pool.next().device_id, "solo-0000");
    }
}

#[test]
fn device_ids_keep_every_digit_of_large_indices() {
    assert_eq!(DeviceContext::new(123456789, "x").device_id, "x-123456789");
    assert_eq!(DeviceContext::new(7, "").device_id, "-0007");
}

#[test]
fn pool_kth_device_is_k_mod_count() {
    let mut pool = DevicePool::new(4, "d");
    for k in 0..13usize {
        let d = pool.next();
        assert_eq!(d.index, k % 4);
        assert_eq!(d.device_id, format!("d-{:04}", k % 4));
    }
}
