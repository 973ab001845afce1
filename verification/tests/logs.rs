use water_rocket::csv;
use water_rocket::logs::{Logs, Sample};
use water_rocket::scalar::Scalar;

fn bits(x: f64) -> Scalar {
    x.to_bits()
}

fn sample(base: u64) -> Sample {
    Sample {
        time: base,
        x: base + 1,
        y: base + 2,
        x_velocity: base + 3,
        y_velocity: base + 4,
        velocity_magnitude: base + 5,
        x_acceleration: base + 6,
        y_acceleration: base + 7,
        acceleration_magnitude: base + 8,
        water_mass: base + 9,
        total_mass: base + 10,
        thrust: base + 11,
        pressure: base + 12,
    }
}

#[test]
fn logs_keep_what_is_pushed() {
    let mut logs = Logs::new();
    assert_eq!(logs.common_len(), 0);
    logs.push(sample(100));
    logs.push(sample(200));
    assert_eq!(logs.common_len(), 2);
    assert_eq!(logs.row(0), sample(100));
    assert_eq!(logs.row(1), sample(200));
    assert_eq!(logs.time_log, vec![100, 200]);
    assert_eq!(logs.x_log, vec![101, 201]);
    assert_eq!(logs.y_log, vec![102, 202]);
    assert_eq!(logs.x_velocity_log, vec![103, 203]);
    assert_eq!(logs.y_velocity_log, vec![104, 204]);
    assert_eq!(logs.velocity_magnitur_log, vec![105, 205]);
    assert_eq!(logs.x_acceleration_log, vec![106, 206]);
    assert_eq!(logs.y_acceleration_log, vec![107, 207]);
    assert_eq!(logs.acceleration_magnitur_log, vec![108, 208]);
    assert_eq!(logs.water_mass_log, vec![109, 209]);
    assert_eq!(logs.mass_log, vec![110, 210]);
    assert_eq!(logs.thrust_log, vec![111, 211]);
    assert_eq!(logs.pressure_log, vec![112, 212]);
}

#[test]
fn common_length_is_the_shortest() {
    let mut logs = Logs::new();
    for i in 0..5 {
        logs.push(sample(i * 100));
    }
    assert_eq!(logs.common_len(), 5);
    logs.acceleration_magnitur_log.truncate(3);
    assert_eq!(logs.common_len(), 3);
    logs.time_log.truncate(2);
    assert_eq!(logs.common_len(), 2);
    logs.pressure_log.truncate(1);
    assert_eq!(logs.common_len(), 1);
    logs.x_log.push(7);
    assert_eq!(logs.common_len(), 1);
    logs.y_velocity_log.clear();
    assert_eq!(logs.common_len(), 0);
}

fn reading(start: f64) -> Sample {
    Sample {
        time: bits(start),
        x: bits(start + 1.0),
        y: bits(start + 2.0),
        x_velocity: bits(start + 3.0),
        y_velocity: bits(start + 4.0),
        velocity_magnitude: bits(start + 5.0),
        x_acceleration: bits(start + 6.0),
        y_acceleration: bits(start + 7.0),
        acceleration_magnitude: bits(start + 8.0),
        water_mass: bits(start + 9.0),
        total_mass: bits(start + 10.0),
        thrust: bits(start + 11.0),
        pressure: bits(start + 12.0),
    }
}

#[test]
fn table_of_two_samples_has_three_lines() {
    let mut logs = Logs::new();
    logs.push(reading(0.25));
    logs.push(reading(-20.5));
    let text = csv::write_table(&logs, ';');
    assert_eq!(
        text,
        "\u{FEFF}time_s;x_m;y_m;vx_m_s;vy_m_s;v_mag_m_s;ax_m_s2;ay_m_s2;a_mag_m_s2;water_mass_kg;total_mass_kg;thrust_N;pressure_abs_Pa\n\
         0.250000;1.250000;2.250000;3.250000;4.250000;5.250000;6.250000;7.250000;8.250000;9.250000;10.250000;11.250000;12.250000\n\
         -20.500000;-19.500000;-18.500000;-17.500000;-16.500000;-15.500000;-14.500000;-13.500000;-12.500000;-11.500000;-10.500000;-9.500000;-8.500000\n"
    );
    assert_eq!(text.lines().count(), 3);
    for row in text.lines().skip(1) {
        for field in row.split(';') {
            let (_, decimals) = field.split_once('.').unwrap();
            assert_eq!(decimals.len(), 6);
        }
    }
}

#[test]
fn table_of_no_sample_is_the_header() {
    let logs = Logs::new();
    let text = csv::write_table(&logs, '\t');
    assert_eq!(
        text,
        "\u{FEFF}time_s\tx_m\ty_m\tvx_m_s\tvy_m_s\tv_mag_m_s\tax_m_s2\tay_m_s2\ta_mag_m_s2\twater_mass_kg\ttotal_mass_kg\tthrust_N\tpressure_abs_Pa\n"
    );
    assert_eq!(csv::BYTE_ORDER_MARK, '\u{FEFF}');
    assert_eq!(csv::LINE_END, '\n');
}

#[test]
fn a_sample_is_taken_from_the_state() {
    let eval = |op: water_rocket::arithmetic::Op| match op {
        water_rocket::arithmetic::Op::Hypot(a, b) => {
            f64::from_bits(a).hypot(f64::from_bits(b)).to_bits()
        }
        _ => panic!("only lengths are asked for"),
    };
    let mut sim = water_rocket::simulation::Simulation::new(bits(0.5), |op| match op {
        water_rocket::arithmetic::Op::Hypot(..) => bits(0.0),
        _ => bits(1.0),
    });
    sim.state.velocity.x = bits(3.0);
    sim.state.velocity.y = bits(-4.0);
    sim.state.acceleration.x = bits(-5.0);
    sim.state.acceleration.y = bits(12.0);
    sim.state.time = bits(7.0);
    sim.state.thrust_force = bits(8.0);
    let taken = Sample::take(&sim.state, &eval);
    assert_eq!(taken.time, bits(7.0));
    assert_eq!(taken.x, sim.state.position.x);
    assert_eq!(taken.y, sim.state.position.y);
    assert_eq!(taken.x_velocity, bits(3.0));
    assert_eq!(taken.y_velocity, bits(-4.0));
    assert_eq!(taken.velocity_magnitude, bits(5.0));
    assert_eq!(taken.x_acceleration, bits(-5.0));
    assert_eq!(taken.y_acceleration, bits(12.0));
    assert_eq!(taken.acceleration_magnitude, bits(13.0));
    assert_eq!(taken.water_mass, sim.state.water_mass);
    assert_eq!(taken.total_mass, sim.state.total_mass);
    assert_eq!(taken.thrust, bits(8.0));
    assert_eq!(taken.pressure, sim.state.current_pressure_pa);
}
