use plasma_furnace::field::Field2;
use plasma_furnace::kernels::{
    gather_stencil, is_all_finite, CellStencil, HeatSources, PhaseCell, PhaseTransition,
    PhaseUpdate,
};
use plasma_furnace::mesh::{AxialNode, RadialNode};
use plasma_furnace::phase::{is_admissible, is_in_transition, sweep_transition, Inadmissible};
use plasma_furnace::scalar::Scalar;

fn s(x: f64) -> Scalar {
    Scalar::from_bits(x.to_bits())
}

fn f(x: Scalar) -> f64 {
    f64::from_bits(x.to_bits())
}

fn field(rows: usize, cols: usize, value: impl Fn(usize, usize) -> f64) -> Field2 {
    let mut out = Field2::filled(rows, cols, s(0.0)).unwrap();
    for i in 0..rows {
        for j in 0..cols {
            out.set(i, j, s(value(i, j)));
        }
    }
    out
}

fn cell(temperature: f64, point: f64, fraction: f64, absorbed: f64) -> PhaseCell {
    PhaseCell {
        i: 0,
        j: 0,
        transition: PhaseTransition::Melting,
        temperature: s(temperature),
        transition_point: s(point),
        latent_heat: s(2e5),
        fraction: s(fraction),
        absorbed: s(absorbed),
    }
}

fn update(fraction: f64, temperature: f64, absorbed: f64) -> PhaseUpdate {
    PhaseUpdate { fraction: s(fraction), temperature: s(temperature), absorbed: s(absorbed) }
}

#[test]
fn a_cell_is_in_transition_when_it_is_hot_and_not_through() {
    assert!(is_in_transition(s(101.0), s(100.0), s(0.0), None));
    assert!(is_in_transition(s(101.0), s(100.0), s(0.999), None));
    assert!(!is_in_transition(s(100.0), s(100.0), s(0.0), None));
    assert!(!is_in_transition(s(99.0), s(100.0), s(0.0), None));
    assert!(!is_in_transition(s(101.0), s(100.0), s(1.0), None));
    assert!(!is_in_transition(s(f64::NAN), s(100.0), s(0.0), None));
    assert!(!is_in_transition(s(101.0), s(f64::NAN), s(0.0), None));
    assert!(!is_in_transition(s(101.0), s(100.0), s(f64::NAN), None));
}

#[test]
fn a_cell_waits_for_the_transition_before_it() {
    assert!(is_in_transition(s(500.0), s(400.0), s(0.0), Some(s(1.0))));
    assert!(!is_in_transition(s(500.0), s(400.0), s(0.0), Some(s(0.99))));
    assert!(!is_in_transition(s(500.0), s(400.0), s(0.0), Some(s(0.0))));
    assert!(!is_in_transition(s(500.0), s(400.0), s(0.0), Some(s(f64::NAN))));
    assert!(!is_in_transition(s(300.0), s(400.0), s(0.0), Some(s(1.0))));
}

#[test]
fn an_update_is_admissible_within_its_bounds() {
    let c = cell(120.0, 100.0, 0.25, 10.0);
    assert!(is_admissible(c, update(0.25, 120.0, 10.0)));
    assert!(is_admissible(c, update(0.5, 100.0, 11.0)));
    assert!(is_admissible(c, update(1.0, 110.0, 1e9)));
    assert!(!is_admissible(c, update(0.2, 110.0, 11.0)));
    assert!(!is_admissible(c, update(1.0000001, 110.0, 11.0)));
    assert!(!is_admissible(c, update(0.5, 99.9, 11.0)));
    assert!(!is_admissible(c, update(0.5, 120.1, 11.0)));
    assert!(!is_admissible(c, update(0.5, 110.0, 9.9)));
    assert!(!is_admissible(c, update(0.5, 110.0, f64::INFINITY)));
    assert!(!is_admissible(c, update(f64::NAN, 110.0, 11.0)));
    assert!(!is_admissible(c, update(0.5, f64::NAN, 11.0)));
    assert!(!is_admissible(c, update(0.5, 110.0, f64::NAN)));
}

#[test]
fn finiteness_is_checked_node_by_node() {
    let mut t = field(3, 2, |i, j| (i + j) as f64);
    assert!(is_all_finite(&t));
    t.set(2, 1, s(f64::NAN));
    assert!(!is_all_finite(&t));
    t.set(2, 1, s(f64::NEG_INFINITY));
    assert!(!is_all_finite(&t));
    t.set(2, 1, s(f64::MAX));
    assert!(is_all_finite(&t));
    assert!(is_all_finite(&Field2::filled(0, 3, s(f64::NAN)).unwrap()));
}

#[test]
fn a_stencil_is_gathered_with_its_boundary_conditions() {
    let t = field(3, 3, |i, j| (10 * i + j) as f64);
    let sources = HeatSources {
        radiation: field(3, 3, |i, j| 100.0 + (10 * i + j) as f64),
        convection: field(3, 3, |i, j| 200.0 + (10 * i + j) as f64),
    };
    let middle = gather_stencil(&t, &sources, s(-1.0), 1, 1);
    assert_eq!(
        middle,
        CellStencil {
            i: 1,
            j: 1,
            radial: RadialNode::Interior,
            axial: AxialNode::Interior,
            center: s(11.0),
            inward: s(1.0),
            outward: s(21.0),
            below: s(10.0),
            above: s(12.0),
            radiation: s(111.0),
            convection: s(211.0),
        }
    );
    let corner = gather_stencil(&t, &sources, s(-1.0), 0, 0);
    assert_eq!(corner.radial, RadialNode::Axis);
    assert_eq!(corner.axial, AxialNode::Bottom);
    assert_eq!(f(corner.inward), 10.0);
    assert_eq!(f(corner.outward), 10.0);
    assert_eq!(f(corner.below), -1.0);
    assert_eq!(f(corner.above), 1.0);
    let far = gather_stencil(&t, &sources, s(-1.0), 2, 2);
    assert_eq!(far.radial, RadialNode::OuterWall);
    assert_eq!(far.axial, AxialNode::Top);
    assert_eq!(f(far.inward), 12.0);
    assert_eq!(f(far.outward), -1.0);
    assert_eq!(f(far.below), 21.0);
    assert_eq!(f(far.above), -1.0);
    assert_eq!(f(far.radiation), 122.0);
    assert_eq!(f(far.convection), 222.0);
}

fn melt_half(c: PhaseCell) -> PhaseUpdate {
    PhaseUpdate {
        fraction: s((f(c.fraction) + 0.5).min(1.0)),
        temperature: c.transition_point,
        absorbed: s(f(c.absorbed) + 1.0),
    }
}

#[test]
fn a_sweep_touches_the_cells_in_transition_only() {
    let mut fractions = field(2, 3, |i, _| if i == 0 { 0.0 } else { 0.75 });
    let mut temperature = field(2, 3, |_, j| 90.0 + 10.0 * j as f64);
    let absorbed = sweep_transition(
        &mut fractions,
        &mut temperature,
        None,
        PhaseTransition::Melting,
        s(100.0),
        s(2e5),
        s(5.0),
        &melt_half,
    )
    .unwrap();
    assert_eq!(f(absorbed), 7.0);
    for i in 0..2 {
        let before = if i == 0 { 0.0 } else { 0.75 };
        assert_eq!(f(fractions.get(i, 0)), before);
        assert_eq!(f(fractions.get(i, 1)), before);
        assert_eq!(f(fractions.get(i, 2)), (before + 0.5f64).min(1.0));
        assert_eq!(f(temperature.get(i, 0)), 90.0);
        assert_eq!(f(temperature.get(i, 1)), 100.0);
        assert_eq!(f(temperature.get(i, 2)), 100.0);
    }
}

#[test]
fn a_sweep_hands_the_energy_from_cell_to_cell() {
    let mut fractions = field(2, 2, |_, _| 0.0);
    let mut temperature = field(2, 2, |_, _| 150.0);
    let seen = std::cell::RefCell::new(Vec::new());
    let kernel = |c: PhaseCell| {
        seen.borrow_mut().push((c.i, c.j, f(c.absorbed), c.transition));
        melt_half(c)
    };
    let absorbed = sweep_transition(
        &mut fractions,
        &mut temperature,
        None,
        PhaseTransition::Vaporization,
        s(100.0),
        s(2e5),
        s(0.0),
        &kernel,
    )
    .unwrap();
    assert_eq!(f(absorbed), 4.0);
    assert_eq!(
        seen.into_inner(),
        vec![
            (0, 0, 0.0, PhaseTransition::Vaporization),
            (0, 1, 1.0, PhaseTransition::Vaporization),
            (1, 0, 2.0, PhaseTransition::Vaporization),
            (1, 1, 3.0, PhaseTransition::Vaporization),
        ]
    );
}

#[test]
fn a_sweep_without_a_cell_in_transition_calls_nothing() {
    let mut fractions = field(2, 2, |_, _| 1.0);
    let mut temperature = field(2, 2, |_, _| 500.0);
    let calls = std::cell::Cell::new(0);
    let kernel = |c: PhaseCell| {
        calls.set(calls.get() + 1);
        melt_half(c)
    };
    let absorbed = sweep_transition(
        &mut fractions,
        &mut temperature,
        None,
        PhaseTransition::Melting,
        s(100.0),
        s(2e5),
        s(3.5),
        &kernel,
    );
    assert_eq!(absorbed, Ok(s(3.5)));
    assert_eq!(calls.get(), 0);
    assert_eq!(f(temperature.get(1, 1)), 500.0);
}

#[test]
fn a_sweep_is_held_back_by_the_transition_before_it() {
    let melt = field(1, 3, |_, j| [0.0, 0.99, 1.0][j]);
    let mut vapor = field(1, 3, |_, _| 0.0);
    let mut temperature = field(1, 3, |_, _| 3000.0);
    let absorbed = sweep_transition(
        &mut vapor,
        &mut temperature,
        Some(&melt),
        PhaseTransition::Vaporization,
        s(2862.0),
        s(6e6),
        s(0.0),
        &melt_half,
    )
    .unwrap();
    assert_eq!(f(absorbed), 1.0);
    assert_eq!(f(vapor.get(0, 0)), 0.0);
    assert_eq!(f(vapor.get(0, 1)), 0.0);
    assert_eq!(f(vapor.get(0, 2)), 0.5);
    assert_eq!(f(temperature.get(0, 1)), 3000.0);
    assert_eq!(f(temperature.get(0, 2)), 2862.0);
}

#[test]
fn a_sweep_stops_at_the_first_update_that_is_not_admissible() {
    let mut fractions = field(2, 2, |_, _| 0.5);
    let mut temperature = field(2, 2, |_, _| 150.0);
    let kernel = |c: PhaseCell| {
        if (c.i, c.j) == (1, 0) {
            PhaseUpdate { fraction: s(0.25), temperature: c.temperature, absorbed: c.absorbed }
        } else {
            melt_half(c)
        }
    };
    let answer = sweep_transition(
        &mut fractions,
        &mut temperature,
        None,
        PhaseTransition::Melting,
        s(100.0),
        s(2e5),
        s(0.0),
        &kernel,
    );
    assert_eq!(answer, Err(Inadmissible { i: 1, j: 0 }));
    assert_eq!(f(fractions.get(0, 0)), 1.0);
    assert_eq!(f(fractions.get(0, 1)), 1.0);
    assert_eq!(f(fractions.get(1, 0)), 0.5);
    assert_eq!(f(fractions.get(1, 1)), 0.5);
    assert_eq!(f(temperature.get(1, 0)), 150.0);
}
