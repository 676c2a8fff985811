use witness_builder::batch::BatchResult;
use witness_builder::batch::BatchRun;
use witness_builder::enumerate::WorkItem;
use witness_builder::enumerate::select_inputs;
use witness_builder::invoke::FailureKind;
use witness_builder::invoke::InvocationOutcome;
use witness_builder::invoke::InvocationSpec;
use witness_builder::invoke::RunConfig;
use witness_builder::invoke::Termination;
use witness_builder::invoke::classify;

fn bytes(s: &str) -> Vec<u8> {
    s.as_bytes().to_vec()
}

fn items_for(names: &[&str]) -> Vec<WorkItem> {
    select_inputs(&names.iter().map(|n| bytes(n)).collect())
}

#[test]
fn empty_backlog_succeeds_with_nothing_produced() {
    let run = BatchRun::start(items_for(&["c.txt", "README"]));
    assert!(run.is_finished());
    assert!(matches!(run.result(), BatchResult::Success));
}

#[test]
fn all_success_gives_one_outcome_per_item() {
    let mut run = BatchRun::start(items_for(&["a.json", "b.json", "c.json"]));
    let mut handed: Vec<WorkItem> = Vec::new();
    while let Some(item) = run.take_next() {
        let outcome = classify(&item, Termination::Exited(0));
        run.record(outcome);
        handed.push(item);
    }
    assert_eq!(handed.len(), 3);
    assert_eq!(handed[0].base_name, bytes("a"));
    assert_eq!(handed[1].base_name, bytes("b"));
    assert_eq!(handed[2].base_name, bytes("c"));
    assert!(run.is_finished());
    assert!(matches!(run.result(), BatchResult::Success));
}

#[test]
fn single_failure_identifies_the_item() {
    let mut run = BatchRun::start(items_for(&["a.json", "b.json", "c.txt"]));
    while let Some(item) = run.take_next() {
        let termination = if item.base_name == bytes("b") {
            Termination::Exited(1)
        } else {
            Termination::Exited(0)
        };
        run.record(classify(&item, termination));
    }
    assert!(run.is_finished());
    match run.result() {
        BatchResult::Failed(f) => {
            assert_eq!(f.base_name, bytes("b"));
            assert_eq!(f.kind, FailureKind::Computation);
        },
        BatchResult::Success => panic!("batch must fail"),
    }
}

#[test]
fn failure_stops_further_handouts_but_lets_work_drain() {
    let mut run = BatchRun::start(items_for(&["a.json", "b.json", "c.json"]));
    let first = run.take_next().unwrap();
    let second = run.take_next().unwrap();
    run.record(classify(&first, Termination::Exited(2)));
    assert!(run.take_next().is_none());
    assert!(!run.is_finished());
    run.record(classify(&second, Termination::Exited(0)));
    assert!(run.is_finished());
    match run.result() {
        BatchResult::Failed(f) => assert_eq!(f.base_name, bytes("a")),
        BatchResult::Success => panic!("batch must fail"),
    }
}

#[test]
fn pool_smaller_than_backlog_processes_every_item() {
    let mut run = BatchRun::start(items_for(&[
        "a.json", "b.json", "c.json", "d.json", "e.json",
    ]));
    let mut in_flight: Vec<WorkItem> = Vec::new();
    let mut processed: Vec<Vec<u8>> = Vec::new();
    loop {
        while in_flight.len() < 2 {
            match run.take_next() {
                Some(item) => in_flight.push(item),
                None => break,
            }
        }
        match in_flight.pop() {
            Some(item) => {
                processed.push(item.base_name.clone());
                run.record(classify(&item, Termination::Exited(0)));
            },
            None => break,
        }
    }
    processed.sort();
    assert_eq!(
        processed,
        vec![bytes("a"), bytes("b"), bytes("c"), bytes("d"), bytes("e")],
    );
    assert!(run.is_finished());
    assert!(matches!(run.result(), BatchResult::Success));
}

#[test]
fn spawn_and_signal_failures_keep_their_kind() {
    let item = WorkItem::new(bytes("x.json")).unwrap();
    match classify(&item, Termination::SpawnFailed) {
        InvocationOutcome::Failure(f) => {
            assert_eq!(f.base_name, bytes("x"));
            assert_eq!(f.kind, FailureKind::Spawn);
        },
        InvocationOutcome::Success => panic!("spawn failure must fail the item"),
    }
    match classify(&item, Termination::Signalled) {
        InvocationOutcome::Failure(f) => assert_eq!(f.kind, FailureKind::Abnormal),
        InvocationOutcome::Success => panic!("a signalled child must fail the item"),
    }
    assert!(matches!(classify(&item, Termination::Exited(0)), InvocationOutcome::Success));
}

#[test]
fn invocation_uses_the_fixed_argument_order() {
    let cfg = RunConfig {
        script: bytes("gen.js"),
        wasm: bytes("circuit.wasm"),
        input_dir: bytes("inputs"),
        output_dir: bytes("out"),
    };
    let item = WorkItem::new(bytes("a.json")).unwrap();
    let spec = InvocationSpec::build(&cfg, &item);
    assert_eq!(spec.input_path, bytes("inputs/a.json"));
    assert_eq!(spec.output_path, bytes("out/a.wtns"));
    let args = spec.arg_list();
    assert_eq!(
        args,
        vec![
            bytes("gen.js"),
            bytes("circuit.wasm"),
            bytes("inputs/a.json"),
            bytes("out/a.wtns"),
        ],
    );
}
