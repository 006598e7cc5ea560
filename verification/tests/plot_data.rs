use ft_kalman::plot_data::{PlotData, FOLLOW_DIVISOR, MAX_SIZE};

fn sample(data: &mut PlotData<f32>, i: usize, fix: bool) {
    let v = i as f32;
    let state = [v, v + 0.1, v + 0.2, v + 0.3, v + 0.4, v + 0.5];
    let unc = [-v, -v - 0.1, -v - 0.2, -v - 0.3, -v - 0.4, -v - 0.5];
    let innovation = [v * 2.0, v * 3.0, v * 4.0];
    let gps = [v + 100.0, v + 200.0, v + 300.0];
    data.push(&state, &unc, &innovation, if fix { Some(&gps[..]) } else { None }, v * 10.0);
}

#[test]
fn new_history_is_empty() {
    let data: PlotData<f32> = PlotData::new(false);
    assert!(data.x.is_empty() && data.vz_unc.is_empty() && data.nis.is_empty());
    assert!(data.x_gps.is_empty());
    assert!(!data.done);
    assert_eq!(data.max_size, 6000);
    assert_eq!(data.max_size_gps, 6000);
    let data: PlotData<f32> = PlotData::new(true);
    assert_eq!(data.max_size, MAX_SIZE);
    assert_eq!(data.max_size_gps, MAX_SIZE / FOLLOW_DIVISOR);
    assert_eq!(data.max_size_gps, 20);
}

#[test]
fn push_appends_one_item_to_each_series() {
    let mut data: PlotData<f32> = PlotData::new(false);
    sample(&mut data, 1, false);
    sample(&mut data, 2, true);
    assert_eq!(data.x, vec![1.0, 2.0]);
    assert_eq!(data.y, vec![1.1, 2.1]);
    assert_eq!(data.z, vec![1.2, 2.2]);
    assert_eq!(data.vx, vec![1.3, 2.3]);
    assert_eq!(data.vy, vec![1.4, 2.4]);
    assert_eq!(data.vz, vec![1.5, 2.5]);
    assert_eq!(data.x_unc, vec![-1.0, -2.0]);
    assert_eq!(data.y_unc, vec![-1.1, -2.1]);
    assert_eq!(data.z_unc, vec![-1.2, -2.2]);
    assert_eq!(data.vx_unc, vec![-1.3, -2.3]);
    assert_eq!(data.vy_unc, vec![-1.4, -2.4]);
    assert_eq!(data.vz_unc, vec![-1.5, -2.5]);
    assert_eq!(data.x_innov, vec![2.0, 4.0]);
    assert_eq!(data.y_innov, vec![3.0, 6.0]);
    assert_eq!(data.z_innov, vec![4.0, 8.0]);
    assert_eq!(data.nis, vec![10.0, 20.0]);
    assert_eq!(data.x_gps, vec![102.0]);
    assert_eq!(data.y_gps, vec![202.0]);
    assert_eq!(data.z_gps, vec![302.0]);
}

#[test]
fn history_holds_one_more_than_its_limit() {
    let mut data: PlotData<f32> = PlotData::new(true);
    for i in 0..MAX_SIZE + 1 {
        sample(&mut data, i, false);
    }
    assert_eq!(data.x.len(), MAX_SIZE + 1);
    assert_eq!(data.x[0], 0.0);
    sample(&mut data, MAX_SIZE + 1, false);
    assert_eq!(data.x.len(), MAX_SIZE + 1);
    assert_eq!(data.x[0], 1.0);
    assert_eq!(data.nis.len(), MAX_SIZE + 1);
    assert_eq!(data.nis[0], 10.0);
    assert_eq!(data.x[MAX_SIZE], (MAX_SIZE + 1) as f32);
    for i in 0..10 {
        sample(&mut data, i, false);
    }
    assert_eq!(data.x.len(), MAX_SIZE + 1);
    assert_eq!(data.vz_unc.len(), MAX_SIZE + 1);
    assert_eq!(data.x[0], 11.0);
}

#[test]
fn following_keeps_the_recent_fixes() {
    let mut data: PlotData<f32> = PlotData::new(true);
    for i in 0..25 {
        sample(&mut data, i, true);
    }
    assert_eq!(data.x.len(), 25);
    assert_eq!(data.x_gps.len(), 21);
    assert_eq!(data.x_gps[0], 104.0);
    assert_eq!(data.y_gps[0], 204.0);
    assert_eq!(data.z_gps[20], 324.0);
    sample(&mut data, 25, false);
    assert_eq!(data.x_gps.len(), 20);
    assert_eq!(data.x_gps[0], 105.0);
    sample(&mut data, 26, false);
    assert_eq!(data.x_gps.len(), 20);
}

#[test]
fn finish_marks_the_history_done() {
    let mut data: PlotData<f32> = PlotData::new(false);
    sample(&mut data, 3, true);
    data.finish();
    assert!(data.done);
    assert_eq!(data.x, vec![3.0]);
    assert_eq!(data.z_gps, vec![303.0]);
}

#[test]
fn longer_slices_give_their_first_items() {
    let mut data: PlotData<u32> = PlotData::new(false);
    data.push(&[1, 2, 3, 4, 5, 6, 7], &[8, 9, 10, 11, 12, 13, 14], &[15, 16, 17, 18], Some(&[19, 20, 21, 22]), 23);
    assert_eq!(data.vz, vec![6]);
    assert_eq!(data.vz_unc, vec![13]);
    assert_eq!(data.z_innov, vec![17]);
    assert_eq!(data.z_gps, vec![21]);
    assert_eq!(data.nis, vec![23]);
}
