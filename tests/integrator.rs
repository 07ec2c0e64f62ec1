use raytracer::integrator::{ray_color, Bounce};

// Rays are numbered; the state counts the traces made.
fn chain(count: u32, ray: u32) -> (u32, Bounce<f64, u32>) {
    let bounce = if ray < 3 {
        Bounce::Hit {
            emitted: 1.0,
            scatter: Some((0.5, ray + 1)),
        }
    } else {
        Bounce::Miss
    };
    (count + 1, bounce)
}

fn combine(emitted: f64, attenuation: f64, incoming: f64) -> f64 {
    emitted + attenuation * incoming
}

#[test]
fn depth_zero_is_black_without_tracing() {
    for ray in 0..4u32 {
        let (count, color) = ray_color(&chain, &combine, 0.0, 0u32, ray, 0);
        assert_eq!(count, 0);
        assert_eq!(color, 0.0);
    }
}

#[test]
fn miss_is_black() {
    let trace = |count: u32, _ray: u32| (count + 1, Bounce::<f64, u32>::Miss);
    let (count, color) = ray_color(&trace, &combine, 0.0, 0u32, 0u32, 5);
    assert_eq!(count, 1);
    assert_eq!(color, 0.0);
}

#[test]
fn absorbing_light_gives_its_emission() {
    let trace = |count: u32, _ray: u32| {
        (
            count + 1,
            Bounce::<f64, u32>::Hit {
                emitted: 1000.0,
                scatter: None,
            },
        )
    };
    let (count, color) = ray_color(&trace, &combine, 0.0, 0u32, 0u32, 3);
    assert_eq!(count, 1);
    assert_eq!(color, 1000.0);
}

#[test]
fn scattered_path_combines_each_level() {
    // 1 + 0.5 * (1 + 0.5 * (1 + 0.5 * 0)): the fourth ray misses.
    let (count, color) = ray_color(&chain, &combine, 0.0, 0u32, 0u32, 10);
    assert_eq!(count, 4);
    assert_eq!(color, 1.75);
}

#[test]
fn depth_bounds_the_path() {
    let (count, color) = ray_color(&chain, &combine, 0.0, 0u32, 0u32, 1);
    assert_eq!(count, 1);
    assert_eq!(color, 1.0);
    let (count, color) = ray_color(&chain, &combine, 0.0, 0u32, 0u32, 2);
    assert_eq!(count, 2);
    assert_eq!(color, 1.5);
}

#[test]
fn colors_multiply_per_channel() {
    type Rgb = [f64; 3];
    let trace = |count: u32, ray: u32| {
        let bounce = if ray == 0 {
            Bounce::Hit {
                emitted: [0.0, 0.0, 0.0],
                scatter: Some(([0.5, 0.25, 1.0], 1u32)),
            }
        } else {
            Bounce::Hit {
                emitted: [2.0, 4.0, 8.0],
                scatter: None,
            }
        };
        (count + 1, bounce)
    };
    let combine = |e: Rgb, a: Rgb, c: Rgb| -> Rgb {
        [e[0] + a[0] * c[0], e[1] + a[1] * c[1], e[2] + a[2] * c[2]]
    };
    let (count, color) = ray_color(&trace, &combine, [0.0; 3], 0u32, 0u32, 4);
    assert_eq!(count, 2);
    assert_eq!(color, [1.0, 1.0, 8.0]);
}
