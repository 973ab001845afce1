use water_rocket::arithmetic::{evaluate, Op};
use water_rocket::constants;
use water_rocket::constants::Config;
use water_rocket::math_utils::vector_2d::Vector2D;
use water_rocket::physics::dynamics;
use water_rocket::physics::gas_dynamics;
use water_rocket::physics::{mru, mrua};
use water_rocket::scalar;
use water_rocket::scalar::Scalar;

fn num(x: Scalar) -> f64 {
    f64::from_bits(x)
}

fn bits(x: f64) -> Scalar {
    x.to_bits()
}

fn eval(op: Op) -> Scalar {
    let r = match op {
        Op::Add(a, b) => num(a) + num(b),
        Op::Sub(a, b) => num(a) - num(b),
        Op::Mul(a, b) => num(a) * num(b),
        Op::Div(a, b) => num(a) / num(b),
        Op::Sqrt(a) => num(a).sqrt(),
        Op::Powf(a, b) => num(a).powf(num(b)),
        Op::Powi(a, n) => num(a).powi(n),
        Op::Cos(a) => num(a).cos(),
        Op::Sin(a) => num(a).sin(),
        Op::Hypot(a, b) => num(a).hypot(num(b)),
        Op::ToRadians(a) => num(a).to_radians(),
    };
    r.to_bits()
}

fn samples() -> Vec<f64> {
    vec![
        0.0,
        -0.0,
        1.0,
        -1.0,
        1e-12,
        -1e-12,
        f64::EPSILON,
        -f64::EPSILON,
        f64::EPSILON * 1.0000000000000002,
        f64::EPSILON * 0.9999999999999999,
        f64::MIN_POSITIVE,
        -f64::MIN_POSITIVE,
        5e-324,
        -5e-324,
        f64::MAX,
        f64::MIN,
        f64::INFINITY,
        f64::NEG_INFINITY,
        f64::NAN,
        -f64::NAN,
        f64::from_bits(0x7FF0_0000_0000_0001),
        f64::from_bits(0xFFFF_FFFF_FFFF_FFFF),
        0.02,
        0.5,
        2.0,
        101325.0,
        -101325.0,
        3.5e300,
        -3.5e-300,
    ]
}

#[test]
fn exit_velocity_is_zero_without_overpressure() {
    let p_atm = 101325.0;
    assert_eq!(gas_dynamics::exit_velocity(bits(p_atm), bits(p_atm), bits(1000.0), &eval), 0);
    assert_eq!(
        num(gas_dynamics::exit_velocity(bits(p_atm), bits(p_atm), bits(1000.0), &eval)),
        0.0
    );
    assert_eq!(gas_dynamics::exit_velocity(bits(p_atm - 1.0), bits(p_atm), bits(1000.0), &eval), 0);
}

#[test]
fn exit_velocity_is_zero_for_negative_density() {
    let p_atm = 101325.0;
    assert_eq!(gas_dynamics::exit_velocity(bits(p_atm + 1000.0), bits(p_atm), bits(-5.0), &eval), 0);
    assert_eq!(gas_dynamics::exit_velocity(bits(p_atm + 1000.0), bits(p_atm), bits(0.0), &eval), 0);
}

#[test]
fn exit_velocity_by_the_orifice_formula() {
    let v = gas_dynamics::exit_velocity(bits(102325.0), bits(101325.0), bits(1000.0), &eval);
    assert_eq!(num(v), 2.0f64.sqrt());
    assert_eq!(num(v), 1.4142135623730951);
    let v = gas_dynamics::exit_velocity(bits(300000.0), bits(100000.0), bits(1000.0), &eval);
    assert_eq!(num(v), 20.0);
}

#[test]
fn exit_velocity_with_discharge_coefficient() {
    let v = gas_dynamics::exit_velocity_with_cd(
        bits(0.5),
        bits(300000.0),
        bits(100000.0),
        bits(1000.0),
        &eval,
    );
    assert_eq!(num(v), 10.0);
    for (c_d, p_air, rho) in [
        (0.0, 300000.0, 1000.0),
        (-0.5, 300000.0, 1000.0),
        (0.5, 100000.0, 1000.0),
        (0.5, 90000.0, 1000.0),
        (0.5, 300000.0, 0.0),
        (0.5, 300000.0, -1.0),
    ] {
        let v = gas_dynamics::exit_velocity_with_cd(
            bits(c_d),
            bits(p_air),
            bits(100000.0),
            bits(rho),
            &eval,
        );
        assert_eq!(v, 0);
    }
}

#[test]
fn mass_flow_rate_is_the_bare_product() {
    assert_eq!(num(gas_dynamics::mass_flow_rate(bits(2.0), bits(0.5), bits(1000.0), &eval)), 1000.0);
    assert_eq!(num(gas_dynamics::mass_flow_rate(bits(-2.0), bits(0.5), bits(1000.0), &eval)), -1000.0);
    assert_eq!(
        num(gas_dynamics::mass_flow_rate(bits(0.1), bits(0.3), bits(0.7), &eval)),
        0.7 * 0.3 * 0.1
    );
}

#[test]
fn thrust_is_momentum_and_pressure() {
    let f = gas_dynamics::thrust(bits(3.0), bits(20.0), bits(300000.0), bits(100000.0), bits(0.001), &eval);
    assert_eq!(num(f), 3.0 * 20.0 + 200000.0 * 0.001);
    assert_eq!(num(f), 260.0);
    let f = gas_dynamics::thrust(bits(-3.0), bits(20.0), bits(100000.0), bits(100000.0), bits(0.001), &eval);
    assert_eq!(num(f), -60.0);
}

#[test]
fn force_mass_and_acceleration() {
    assert_eq!(num(dynamics::force(bits(2.0), bits(3.5), &eval)), 7.0);
    assert_eq!(dynamics::acceleration_from_force(bits(7.0), bits(2.0), &eval), Some(bits(3.5)));
    assert_eq!(dynamics::acceleration_from_force(bits(7.0), bits(-2.0), &eval), Some(bits(-3.5)));
    assert_eq!(dynamics::acceleration_from_force(bits(7.0), bits(0.0), &eval), None);
    assert_eq!(dynamics::acceleration_from_force(bits(7.0), bits(f64::EPSILON), &eval), None);
    assert_eq!(dynamics::acceleration_from_force(bits(7.0), bits(-1e-17), &eval), None);
    assert_eq!(dynamics::acceleration_from_force(bits(7.0), bits(f64::NAN), &eval), None);
    assert_eq!(
        dynamics::acceleration_from_force(bits(7.0), bits(f64::INFINITY), &eval),
        Some(bits(0.0))
    );
    assert_eq!(dynamics::mass_from(bits(7.0), bits(3.5), &eval), Some(bits(2.0)));
    assert_eq!(dynamics::mass_from(bits(7.0), bits(0.0), &eval), None);
    assert_eq!(dynamics::divide_safely(bits(1.0), bits(4.0), &eval), Some(bits(0.25)));
    assert_eq!(dynamics::divide_safely(bits(1.0), bits(1e-16), &eval), None);
    assert_eq!(
        dynamics::divide_safely(bits(1.0), bits(3e-16), &eval),
        Some(bits(1.0 / 3e-16))
    );
}

#[test]
fn motion_at_constant_speed() {
    assert_eq!(num(mru::position(bits(1.0), bits(2.0), bits(3.0), &eval)), 7.0);
    assert_eq!(num(mru::displacement(bits(2.0), bits(3.0), &eval)), 6.0);
    assert_eq!(mru::velocity(bits(6.0), bits(3.0), &eval), Some(bits(2.0)));
    assert_eq!(mru::velocity(bits(6.0), bits(0.0), &eval), None);
    assert_eq!(mru::velocity(bits(6.0), bits(-0.0), &eval), None);
    assert_eq!(mru::time(bits(6.0), bits(2.0), &eval), Some(bits(3.0)));
    assert_eq!(mru::time(bits(6.0), bits(1e-300), &eval), None);
    assert_eq!(num(mru::position(bits(0.1), bits(0.2), bits(0.3), &eval)), 0.1 + 0.2 * 0.3);
}

#[test]
fn motion_at_constant_acceleration() {
    assert_eq!(num(mrua::position(bits(1.0), bits(2.0), bits(4.0), bits(3.0), &eval)), 25.0);
    assert_eq!(num(mrua::displacement(bits(2.0), bits(3.0), bits(4.0), &eval)), 24.0);
    assert_eq!(num(mrua::final_velocity(bits(2.0), bits(4.0), bits(3.0), &eval)), 14.0);
    assert_eq!(mrua::acceleration_from(bits(14.0), bits(2.0), bits(3.0), &eval), Some(bits(4.0)));
    assert_eq!(mrua::acceleration_from(bits(14.0), bits(2.0), bits(0.0), &eval), None);
    let (x0, v0, a, t) = (0.1, 0.7, 9.81, 0.3);
    assert_eq!(
        num(mrua::position(bits(x0), bits(v0), bits(a), bits(t), &eval)),
        x0 + v0 * t + 0.5 * a * t * t
    );
    assert_eq!(
        num(mrua::displacement(bits(v0), bits(t), bits(a), &eval)),
        v0 * t + 0.5 * a * t * t
    );
}

#[test]
fn vectors() {
    let v = Vector2D::new(bits(3.0), bits(4.0));
    let w = Vector2D::new(bits(1.0), bits(-2.0));
    assert_eq!(num(v.magnitude(&eval)), 5.0);
    assert_eq!(num(v.length(&eval)), 5.0);
    assert_eq!(v.add(w, &eval), Vector2D::new(bits(4.0), bits(2.0)));
    assert_eq!(v.sub(w, &eval), Vector2D::new(bits(2.0), bits(6.0)));
    assert_eq!(v.mul(bits(2.0), &eval), Vector2D::new(bits(6.0), bits(8.0)));
    assert_eq!(v.div(bits(2.0), &eval), Vector2D::new(bits(1.5), bits(2.0)));
    assert_eq!(v.neg(), Vector2D::new(bits(-3.0), bits(-4.0)));
    assert_eq!(Vector2D::default().neg(), Vector2D::new(bits(-0.0), bits(-0.0)));
    assert_eq!(Vector2D::default(), Vector2D::new(bits(0.0), bits(0.0)));
    assert_eq!(Vector2D::from((bits(3.0), bits(4.0))), v);
    let mut u = v;
    u.add_assign(w, &eval);
    assert_eq!(u, Vector2D::new(bits(4.0), bits(2.0)));
    u.sub_assign(w, &eval);
    assert_eq!(u, v);
    u.mul_assign(bits(4.0), &eval);
    assert_eq!(u, Vector2D::new(bits(12.0), bits(16.0)));
    u.div_assign(bits(8.0), &eval);
    assert_eq!(u, Vector2D::new(bits(1.5), bits(2.0)));
}

#[test]
fn the_evaluator_is_asked() {
    assert_eq!(num(evaluate(&eval, Op::Add(bits(1.5), bits(2.0)))), 3.5);
    assert_eq!(num(evaluate(&eval, Op::Powi(bits(1.5), 2))), 2.25);
    assert_eq!(num(evaluate(&eval, Op::ToRadians(bits(180.0)))), std::f64::consts::PI);
    let calls = std::cell::Cell::new(0);
    let counting = |op: Op| {
        calls.set(calls.get() + 1);
        eval(op)
    };
    let v = gas_dynamics::exit_velocity(bits(300000.0), bits(100000.0), bits(1000.0), &counting);
    assert_eq!(num(v), 20.0);
    assert_eq!(calls.get(), 4);
    let v = gas_dynamics::exit_velocity(bits(100000.0), bits(100000.0), bits(1000.0), &counting);
    assert_eq!(v, 0);
    assert_eq!(calls.get(), 5);
}

#[test]
fn constants_are_the_numbers_they_stand_for() {
    assert_eq!(num(constants::GRAVITY), 9.81);
    assert_eq!(num(constants::WATER_DENSITY), 1000.0);
    assert_eq!(num(constants::ATMOSFERIC_PRESSURE), 101325.0);
    assert_eq!(num(constants::ADIABATIC_INDEX_AIR), 1.4);
    assert_eq!(num(constants::INITIAL_POSITION_X), 0.0);
    assert_eq!(num(constants::INITIAL_POSITION_Y), 0.0);
    assert_eq!(num(constants::INITIAL_VELOCITY_X), 0.0);
    assert_eq!(num(constants::INITIAL_VELOCITY_Y), 0.0);
    assert_eq!(num(constants::INITIAL_ACCELERATION_X), 0.0);
    assert_eq!(num(constants::INITIAL_ACCELERATION_Y), 0.0);
    assert_eq!(num(constants::LAUNCHING_ANGLE_DEG), 45.0);
    assert_eq!(num(constants::DRY_MASS), 0.6);
    assert_eq!(num(constants::INITIAL_WATER_MASS), 1.0);
    assert_eq!(num(constants::INITIAL_AIR_PRESSURE_PSI), 45.0);
    assert_eq!(num(constants::DISCHARGE_COEFFICIENT), 0.0);
    assert_eq!(num(constants::BOTTLE_VOLUME), 0.002);
    assert_eq!(num(constants::NOZZLE_DIAMETER), 0.021);
    assert_eq!(num(constants::PASCALS_PER_PSI), 6894.757293168361);
    assert_eq!(num(constants::LEAST_AIR_VOLUME), 1e-12);
    assert_eq!(num(constants::ARMING_DELAY), 0.02);
    assert_eq!(num(constants::PI), std::f64::consts::PI);
    assert_eq!(num(constants::TWO), 2.0);
    assert_eq!(num(constants::HALF), 0.5);
    assert_eq!(scalar::ZERO, bits(0.0));
    assert_eq!(scalar::SIGN_BIT, bits(-0.0));
    assert_eq!(scalar::INFINITY_MAGNITUDE, bits(f64::INFINITY));
    assert_eq!(scalar::EPSILON_MAGNITUDE, bits(f64::EPSILON));
    let config = Config::default();
    assert_eq!(num(config.gravity), 9.81);
    assert_eq!(num(config.nozzle_diameter), 0.021);
    assert_eq!(num(config.arming_delay), 0.02);
    assert_eq!(config.initial_position, Vector2D::default());
}

#[test]
fn numbers_compare_as_doubles_do() {
    for a in samples() {
        let x = bits(a);
        assert_eq!(scalar::is_not_a_number(x), a.is_nan(), "{a}");
        assert_eq!(scalar::is_non_positive(x), a <= 0.0, "{a}");
        assert_eq!(scalar::is_positive(x), a > 0.0, "{a}");
        assert_eq!(scalar::is_negative(x), a < 0.0, "{a}");
        assert_eq!(scalar::is_non_negative(x), a >= 0.0, "{a}");
        assert_eq!(scalar::is_far_from_zero(x), a.abs() > f64::EPSILON, "{a}");
        assert_eq!(scalar::negate(x), bits(-a), "{a}");
        for b in samples() {
            let y = bits(b);
            assert_eq!(scalar::is_less_than(x, y), a < b, "{a} {b}");
            assert_eq!(scalar::is_greater_than(x, y), a > b, "{a} {b}");
            let floored = num(scalar::floor_at(x, y));
            let max = a.max(b);
            assert!(floored == max || (floored.is_nan() && max.is_nan()), "{a} {b}");
        }
    }
}

#[test]
fn floors() {
    assert_eq!(scalar::floor_at(bits(3.0), bits(0.0)), bits(3.0));
    assert_eq!(scalar::floor_at(bits(-3.0), bits(0.0)), bits(0.0));
    assert_eq!(scalar::floor_at(bits(-0.0), bits(0.0)), bits(0.0));
    assert_eq!(scalar::floor_at(bits(f64::NAN), bits(0.0)), bits(0.0));
    assert_eq!(scalar::floor_at(bits(f64::NEG_INFINITY), bits(1e-12)), bits(1e-12));
    assert_eq!(scalar::floor_at(bits(1e-13), bits(1e-12)), bits(1e-12));
    assert_eq!(scalar::floor_at(bits(2e-12), bits(1e-12)), bits(2e-12));
    assert_eq!(scalar::floor_at(bits(2.0), bits(f64::NAN)), bits(2.0));
}
