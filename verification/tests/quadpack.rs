use quadpack::{
    result_from_status, Bounded, Infinite, LowerInf, MachineConstant, QuadpackError,
    QuadpackInterval, QuadpackResult, QuadpackRoutine, QuadpackScratch, UpperInf,
};

#[test]
fn scratch_from_bytes_f64_rounds_up() {
    // One subinterval takes 4 + 4 * 8 = 36 bytes; 4096 bytes need 114 of them.
    let s = QuadpackScratch::<f64>::new(4096);
    assert_eq!(s.workspace_limits(), Some((114, 456)));
}

#[test]
fn scratch_from_bytes_f32_rounds_up() {
    // One subinterval takes 4 + 4 * 4 = 20 bytes; ceil(4096 / 20) = 205.
    let s = QuadpackScratch::<f32>::new(4096);
    assert_eq!(s.workspace_limits(), Some((205, 820)));
}

#[test]
fn scratch_from_exact_multiple() {
    let s = QuadpackScratch::<f64>::new(72);
    assert_eq!(s.workspace_limits(), Some((2, 8)));
    let s = QuadpackScratch::<f64>::new(73);
    assert_eq!(s.workspace_limits(), Some((3, 12)));
}

#[test]
fn scratch_from_one_byte_has_one_subdivision() {
    let s = QuadpackScratch::<f64>::new(1);
    assert_eq!(s.workspace_limits(), Some((1, 4)));
}

#[test]
fn scratch_with_max_subdivs_is_zeroed() {
    let mut s = QuadpackScratch::<f64>::with_max_subdivs(3);
    assert_eq!(s.workspace_limits(), Some((3, 12)));
    let (ints, reals) = s.workspace_mut();
    assert_eq!(ints.len(), 3);
    assert_eq!(reals.len(), 12);
    assert!(ints.iter().all(|&i| i == 0));
    assert!(reals.iter().all(|&x| x == 0.0));
}

#[test]
fn scratch_empty() {
    let s = QuadpackScratch::<f64>::with_max_subdivs(0);
    assert_eq!(s.workspace_limits(), Some((0, 0)));
}

#[test]
fn scratch_writes_through_workspace_are_kept() {
    let mut s = QuadpackScratch::<f64>::with_max_subdivs(2);
    {
        let (ints, reals) = s.workspace_mut();
        ints[1] = 7;
        reals[5] = 2.5;
    }
    let (ints, reals) = s.workspace_mut();
    assert_eq!(ints[1], 7);
    assert_eq!(reals[5], 2.5);
    assert_eq!(s.workspace_limits(), Some((2, 8)));
}

#[test]
fn status_zero_is_success() {
    let r = result_from_status(0, 3.14f64, 1.0e-9, 21, 1);
    assert_eq!(
        r,
        Ok(QuadpackResult { value: 3.14, abserr: 1.0e-9, neval: 21, nsubdiv: 1 })
    );
}

#[test]
fn status_counts_convert_as_casts() {
    let r = result_from_status(0, 0.0f64, 0.0, -1, 2);
    assert_eq!(r.unwrap().neval, usize::MAX);
    assert_eq!(r.unwrap().nsubdiv, 2);
}

#[test]
fn status_codes_name_each_error() {
    let cases = [
        (1, QuadpackError::MaxSubdivisions),
        (2, QuadpackError::RoundoffError),
        (3, QuadpackError::BadIntegrand),
        (4, QuadpackError::NoConverge),
        (5, QuadpackError::Divergent),
        (6, QuadpackError::InvalidInput),
    ];
    for (ier, e) in cases {
        assert_eq!(result_from_status(ier, 1.0f32, 2.0, 3, 4), Err(e));
    }
}

#[test]
fn distinct_status_codes_give_distinct_errors() {
    for i in 1..=6 {
        for j in 1..=6 {
            let a = result_from_status(i, 0.0f64, 0.0, 0, 0);
            let b = result_from_status(j, 0.0f64, 0.0, 0, 0);
            assert_eq!(a == b, i == j);
        }
    }
}

#[test]
fn bounded_interval_uses_qags() {
    let r: QuadpackRoutine<f64> = Bounded(0.0, 1.0).routine();
    assert_eq!(r, QuadpackRoutine::Qags { a: 0.0, b: 1.0 });
}

#[test]
fn half_infinite_intervals_use_qagi() {
    assert_eq!(UpperInf(2.0f64).routine(), QuadpackRoutine::Qagi { bound: 2.0, inf: 1 });
    assert_eq!(LowerInf(-3.0f64).routine(), QuadpackRoutine::Qagi { bound: -3.0, inf: -1 });
}

#[test]
fn whole_line_uses_qagi_with_zero_bound() {
    let i: QuadpackInterval<f64> = Infinite;
    assert_eq!(i.routine(), QuadpackRoutine::Qagi { bound: 0.0, inf: 2 });
}

#[test]
fn machine_constant_codes() {
    assert_eq!(MachineConstant::from_code(1), Some(MachineConstant::SmallestPositive));
    assert_eq!(MachineConstant::from_code(2), Some(MachineConstant::Largest));
    assert_eq!(MachineConstant::from_code(3), Some(MachineConstant::SmallestSpacing));
    assert_eq!(MachineConstant::from_code(4), Some(MachineConstant::LargestSpacing));
    assert_eq!(MachineConstant::from_code(5), Some(MachineConstant::Log10Radix));
    assert_eq!(MachineConstant::from_code(0), None);
    assert_eq!(MachineConstant::from_code(6), None);
    assert_eq!(MachineConstant::from_code(-1), None);
}
