use token_checker::collect::{collect, sort_by_index, CheckTaskOutput, Collected};
use token_checker::utils::enums::ApiError;

fn output(index: usize, token: &str) -> CheckTaskOutput {
    CheckTaskOutput {
        index,
        token: token.to_string(),
        result: Err(ApiError::RateLimited(None)),
    }
}

#[test]
fn completion_order_gives_way_to_input_order() {
    let ordered = sort_by_index(vec![output(2, "C"), output(0, "A"), output(1, "B")]);
    assert_eq!(ordered, vec![output(0, "A"), output(1, "B"), output(2, "C")]);
}

#[test]
fn input_order_stays() {
    let ordered = sort_by_index(vec![output(0, "A"), output(1, "B"), output(2, "C")]);
    assert_eq!(ordered, vec![output(0, "A"), output(1, "B"), output(2, "C")]);
}

#[test]
fn reverse_order_is_turned_round() {
    let given: Vec<CheckTaskOutput> = (0..20).rev().map(|i| output(i, &i.to_string())).collect();
    let expected: Vec<CheckTaskOutput> = (0..20).map(|i| output(i, &i.to_string())).collect();
    assert_eq!(sort_by_index(given), expected);
}

#[test]
fn nothing_to_order() {
    assert_eq!(sort_by_index(Vec::new()), Vec::new());
    assert_eq!(sort_by_index(vec![output(7, "x")]), vec![output(7, "x")]);
}

#[test]
fn outcomes_of_one_place_keep_their_order() {
    let ordered = sort_by_index(vec![
        output(1, "first"),
        output(0, "zero"),
        output(1, "second"),
        output(1, "third"),
    ]);
    assert_eq!(
        ordered,
        vec![output(0, "zero"), output(1, "first"), output(1, "second"), output(1, "third")]
    );
}

#[test]
fn gaps_in_the_places_do_not_matter() {
    let ordered = sort_by_index(vec![output(9, "c"), output(4, "b"), output(1, "a")]);
    assert_eq!(ordered, vec![output(1, "a"), output(4, "b"), output(9, "c")]);
}

#[test]
fn finished_and_broken_tasks_are_told_apart() {
    let tasks = vec![
        Ok(output(2, "C")),
        Err("task 1 panicked".to_string()),
        Ok(output(0, "A")),
        Err("task 3 was cancelled".to_string()),
    ];
    assert_eq!(
        collect(tasks),
        Collected {
            results: vec![output(0, "A"), output(2, "C")],
            join_errors: vec![
                (1, "task 1 panicked".to_string()),
                (3, "task 3 was cancelled".to_string()),
            ],
        }
    );
}

#[test]
fn no_tasks_nothing_collected() {
    assert_eq!(collect(Vec::new()), Collected { results: Vec::new(), join_errors: Vec::new() });
}
