use rust_actor_pattern::actor::new_actor_state;
use rust_actor_pattern::actor::serve_request;
use rust_actor_pattern::locked::create_locked_id_generator;
use rust_actor_pattern::Generator;

#[test]
fn locked_concurrent_callers_get_contiguous_distinct_ids() {
    let runtime = tokio::runtime::Builder::new_multi_thread()
        .worker_threads(4)
        .build()
        .unwrap();
    let n: u32 = 32;
    let generator = create_locked_id_generator();
    let mut joins = Vec::new();
    for _ in 0..n {
        let mut handle = generator.clone();
        joins.push(runtime.spawn(async move { handle.get_unique_id().unwrap() }));
    }
    let mut ids: Vec<u32> = runtime.block_on(async {
        let mut ids = Vec::new();
        for join in joins {
            ids.push(join.await.unwrap());
        }
        ids
    });
    ids.sort();
    let expected: Vec<u32> = (1..=n).collect();
    assert_eq!(ids, expected);
}

#[test]
fn actor_concurrent_callers_get_contiguous_distinct_ids_and_actor_terminates() {
    let runtime = tokio::runtime::Builder::new_multi_thread()
        .worker_threads(4)
        .build()
        .unwrap();
    let n: u32 = 32;
    let (sender, mut receiver) =
        tokio::sync::mpsc::channel::<tokio::sync::oneshot::Sender<u32>>(8);
    let actor = runtime.spawn(async move {
        let mut state = new_actor_state();
        while let Some(reply) = receiver.recv().await {
            match serve_request(&mut state) {
                Some(id) => {
                    let _ = reply.send(id);
                }
                None => break,
            }
        }
    });
    let mut joins = Vec::new();
    for _ in 0..n {
        let request_sender = sender.clone();
        joins.push(runtime.spawn(async move {
            let (reply_sender, reply_receiver) = tokio::sync::oneshot::channel();
            request_sender.send(reply_sender).await.unwrap();
            reply_receiver.await.unwrap()
        }));
    }
    drop(sender);
    let mut ids: Vec<u32> = runtime.block_on(async {
        let mut ids = Vec::new();
        for join in joins {
            ids.push(join.await.unwrap());
        }
        ids
    });
    // Every handle is dropped by now, so the actor's channel closes and the
    // actor task must finish rather than hang.
    runtime.block_on(actor).unwrap();
    ids.sort();
    let expected: Vec<u32> = (1..=n).collect();
    assert_eq!(ids, expected);
}
