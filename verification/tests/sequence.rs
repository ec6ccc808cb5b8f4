use mailauth::sequence::{chain, map_value, recover, state_chain};

fn parse(s: &str) -> Result<u32, String> {
    s.parse::<u32>().map_err(|_| format!("not a number: {s}"))
}

#[test]
fn map_transforms_success_and_passes_errors_through() {
    let ok: Result<u32, String> = Ok(20);
    assert_eq!(map_value(ok, |n| n + 1), Ok(21));

    let err: Result<u32, String> = Err("boom".to_string());
    assert_eq!(map_value(err, |n| n + 1), Err("boom".to_string()));
}

#[test]
fn chain_runs_the_dependent_step_and_short_circuits_on_error() {
    let ok: Result<&str, String> = Ok("7");
    assert_eq!(chain(ok, parse), Ok(7));

    let ok_bad: Result<&str, String> = Ok("x");
    assert_eq!(chain(ok_bad, parse), Err("not a number: x".to_string()));

    let err: Result<&str, String> = Err("prior".to_string());
    assert_eq!(chain(err, parse), Err("prior".to_string()));
}

#[test]
fn state_chain_threads_the_state_forward() {
    let ok: Result<u32, String> = Ok(2);
    let r = state_chain(40u32, ok, |st, n| Ok::<u32, String>(st + n));
    assert_eq!(r, Ok(42));

    let err: Result<u32, String> = Err("prior".to_string());
    let r = state_chain(40u32, err, |st, n| Ok::<u32, String>(st + n));
    assert_eq!(r, Err("prior".to_string()));
}

#[test]
fn recover_intercepts_errors_and_leaves_successes_alone() {
    let ok: Result<u32, String> = Ok(1);
    assert_eq!(recover(ok, |_e| Ok(99)), Ok(1));

    let recovered: Result<u32, String> = Err("expired".to_string());
    assert_eq!(recover(recovered, |_e| Ok(99)), Ok(99));

    let reraised: Result<u32, String> = Err("fatal".to_string());
    assert_eq!(recover(reraised, |e| Err::<u32, String>(e)), Err("fatal".to_string()));
}

#[test]
fn chain_composition_is_associative_on_success_paths() {
    let double = |n: u32| Ok::<u32, String>(n * 2);
    let stringify = |n: u32| Ok::<String, String>(format!("{n}"));

    for start in [Ok(5u32), Err("prior".to_string())] {
        let left = chain(chain(start.clone(), double), stringify);
        let right = chain(start, |n| chain(double(n), stringify));
        assert_eq!(left, right);
    }
}
