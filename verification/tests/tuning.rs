use tor_v3_vanity::tuning::{
    geometry, Autotune, DeviceLimits, Geometry, Measured, CEILING, ROUNDS, START_ITERS, START_ROUNDS,
};

fn limits(fn_max: u32, regs: u32, gpu_max: u32, gpu_regs: u32, cores: u32) -> DeviceLimits {
    DeviceLimits {
        fn_max_threads: fn_max,
        fn_registers: regs,
        gpu_max_threads: gpu_max,
        gpu_max_registers: gpu_regs,
        gpu_cores: cores,
    }
}

/// The same shape with nine tenths of the registers worked out in floating point.
fn by_floats(l: &DeviceLimits) -> (u32, u32, u64) {
    let reg = (((l.gpu_max_registers as f64 * 0.9) as u32) / l.fn_registers.max(1)) / 32 * 32;
    let threads =
        *[l.fn_max_threads, l.gpu_max_threads, reg.max(32), 256].iter().min().unwrap();
    let blocks = l.gpu_cores * l.gpu_max_threads / threads;
    (threads, blocks, threads as u64 * blocks as u64)
}

#[test]
fn shape_of_a_launch() {
    let g = geometry(&limits(1024, 255, 1024, 65536, 132));
    assert_eq!((g.threads, g.blocks, g.grid), (224, 603, 135072));
    let g = geometry(&limits(1024, 0, 1024, 65536, 132));
    assert_eq!((g.threads, g.blocks, g.grid), (256, 528, 135168));
    let g = geometry(&limits(64, 32, 1024, 65536, 10));
    assert_eq!((g.threads, g.blocks, g.grid), (64, 160, 10240));
    let g = geometry(&limits(1024, 60000, 1024, 65536, 2));
    assert_eq!((g.threads, g.blocks, g.grid), (32, 64, 2048));
}

#[test]
fn shape_agrees_with_floating_point() {
    for regs in [0u32, 1, 31, 64, 100, 255, 256] {
        for gpu_regs in (0..70_000u32).step_by(7).chain([u32::MAX, u32::MAX - 9, 1 << 31]) {
            let l = limits(1024, regs, 1024, gpu_regs, 80);
            let g = geometry(&l);
            assert_eq!((g.threads, g.blocks, g.grid), by_floats(&l));
        }
    }
}

#[test]
fn keys_of_a_launch() {
    let g = Geometry { threads: 256, blocks: 4, grid: 1024 };
    assert_eq!(g.keys_per_launch(16), 16384);
    assert_eq!(g.keys_per_launch(0), 0);
}

fn measured(over_cap: bool, faster: bool, clearly_faster: bool) -> Measured {
    Measured { over_cap, faster, clearly_faster }
}

#[test]
fn tuning_doubles_while_it_pays() {
    let mut t = Autotune::new();
    assert_eq!(t.cur, START_ITERS);
    assert_eq!((START_ITERS, START_ROUNDS, ROUNDS), (16, 3, 2));
    assert_eq!(t.candidate(), Some(32));
    t.observe(measured(false, true, true));
    assert_eq!((t.cur, t.candidate()), (32, Some(64)));
    t.observe(measured(false, true, true));
    assert_eq!((t.cur, t.candidate()), (64, Some(128)));
    t.observe(measured(false, true, false));
    assert_eq!((t.cur, t.candidate()), (128, None));
}

#[test]
fn tuning_ends_without_gain() {
    let mut t = Autotune::new();
    t.observe(measured(false, false, false));
    assert_eq!((t.cur, t.candidate()), (16, None));
    let mut t = Autotune::new();
    t.observe(measured(true, true, true));
    assert_eq!((t.cur, t.candidate()), (32, None));
    let mut t = Autotune::new();
    t.observe(measured(true, false, false));
    assert_eq!((t.cur, t.candidate()), (16, None));
}

#[test]
fn tuning_stays_below_the_ceiling() {
    let mut t = Autotune::new();
    let mut steps = 0;
    while t.candidate().is_some() {
        t.observe(measured(false, true, true));
        steps += 1;
    }
    assert_eq!(t.cur, CEILING / 2);
    assert_eq!(CEILING, 1 << 22);
    assert_eq!(steps, 17);
}
