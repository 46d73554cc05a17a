use lerp::Lerp;
use pong::input::lerp_toward;
use pong::{PADDLE_SPEED, SMOOTH_DEN, SMOOTH_NUM};

#[test]
fn smoothing_converges_toward_full_speed_without_overshooting() {
    // five seconds of fixed steps from rest toward +PADDLE_SPEED
    let mut v: i64 = 0;
    for _ in 0..300 {
        let next = lerp_toward(v, PADDLE_SPEED, SMOOTH_NUM, SMOOTH_DEN);
        assert!(next >= v, "the approach is monotone");
        assert!(next <= PADDLE_SPEED, "the approach never overshoots");
        v = next;
    }
    assert!(v > 990, "after five seconds the velocity is within tolerance, got {v}");
}

#[test]
fn smoothing_decays_back_to_rest_when_the_axis_clears() {
    let mut v: i64 = PADDLE_SPEED;
    for _ in 0..300 {
        let next = lerp_toward(v, 0, SMOOTH_NUM, SMOOTH_DEN);
        assert!(next <= v && next >= 0);
        v = next;
    }
    assert!(v < 10, "the velocity decays toward rest, got {v}");
}

#[test]
fn first_step_moves_a_sixth_of_the_gap() {
    // 10/60 of the remaining distance: from 0 toward 1000 that is 166
    assert_eq!(lerp_toward(0, 1000, SMOOTH_NUM, SMOOTH_DEN), 166);
    assert_eq!(lerp_toward(1000, 0, SMOOTH_NUM, SMOOTH_DEN), 834);
    assert_eq!(lerp_toward(-500, 1000, SMOOTH_NUM, SMOOTH_DEN), -250);
}

#[test]
fn a_small_gap_is_a_fixed_point() {
    // within less than den/num of the target nothing moves any more
    for v in 995..=1000 {
        assert_eq!(lerp_toward(v, 1000, SMOOTH_NUM, SMOOTH_DEN), v);
    }
}

#[test]
fn integer_smoothing_tracks_floating_point_interpolation() {
    // the integer rule is f32::lerp with the fraction 10/60, rounded toward zero
    let t: f32 = SMOOTH_NUM as f32 / SMOOTH_DEN as f32;
    let mut vi: i64 = 0;
    let mut vf: f32 = 0.0;
    for _ in 0..300 {
        vi = lerp_toward(vi, PADDLE_SPEED, SMOOTH_NUM, SMOOTH_DEN);
        vf = vf.lerp(PADDLE_SPEED as f32, t);
        assert!(
            (vf - vi as f32).abs() <= 6.0,
            "integer and float smoothing agree closely: {vi} vs {vf}"
        );
    }
}
