use lidar_batch::queue::WorkQueue;

#[test]
fn claims_come_in_order_then_nothing() {
    let mut queue = WorkQueue::new(3);
    assert_eq!(queue.claim_next(), Some(0));
    assert_eq!(queue.claim_next(), Some(1));
    assert_eq!(queue.claim_next(), Some(2));
    assert_eq!(queue.claim_next(), None);
    assert_eq!(queue.claim_next(), None);
}

#[test]
fn empty_queue_hands_out_nothing() {
    let mut queue = WorkQueue::new(0);
    assert!(queue.is_exhausted());
    assert_eq!(queue.claim_next(), None);
    assert_eq!(queue.claimed(), 0);
}

#[test]
fn queue_counts_what_it_hands_out() {
    let mut queue = WorkQueue::new(2);
    assert_eq!(queue.len(), 2);
    assert_eq!(queue.claimed(), 0);
    assert_eq!(queue.remaining(), 2);
    assert!(!queue.is_exhausted());
    queue.claim_next();
    assert_eq!(queue.claimed(), 1);
    assert_eq!(queue.remaining(), 1);
    queue.claim_next();
    assert!(queue.is_exhausted());
    assert_eq!(queue.remaining(), 0);
    queue.claim_next();
    assert_eq!(queue.claimed(), 2);
    assert_eq!(queue.len(), 2);
}

/// Runs `workers` workers. Those named in `turns` take turns in that order,
/// over and over, until each of them has seen the queue exhausted; then
/// every other worker makes its one claim.
fn run_workers(num_files: usize, workers: usize, turns: &[usize]) -> Vec<Vec<usize>> {
    let mut queue = WorkQueue::new(num_files);
    let mut claimed: Vec<Vec<usize>> = vec![Vec::new(); workers];
    let mut stopped = vec![false; workers];
    let mut turn = 0;
    while turns.iter().any(|w| !stopped[*w]) {
        let worker = turns[turn % turns.len()];
        turn += 1;
        if stopped[worker] {
            continue;
        }
        match queue.claim_next() {
            Some(index) => claimed[worker].push(index),
            None => stopped[worker] = true,
        }
    }
    for worker in 0..workers {
        if !stopped[worker] {
            assert_eq!(queue.claim_next(), None);
            stopped[worker] = true;
        }
    }
    assert!(queue.is_exhausted());
    claimed
}

#[test]
fn every_index_is_claimed_by_exactly_one_worker() {
    for turns in [vec![0, 1, 2], vec![2, 2, 1, 0, 1], vec![0, 0, 0, 1], vec![1, 2, 0, 2]] {
        let claimed = run_workers(10, 3, &turns);
        let mut all: Vec<usize> = claimed.iter().flatten().copied().collect();
        all.sort();
        assert_eq!(all, (0..10).collect::<Vec<usize>>());
    }
}

#[test]
fn surplus_workers_find_the_queue_exhausted() {
    let claimed = run_workers(3, 8, &[0, 1, 2, 3, 4, 5, 6, 7]);
    let busy = claimed.iter().filter(|c| !c.is_empty()).count();
    assert_eq!(busy, 3);
    let total: usize = claimed.iter().map(|c| c.len()).sum();
    assert_eq!(total, 3);
    for idle in &claimed[3..] {
        assert!(idle.is_empty());
    }
}

#[test]
fn one_worker_can_claim_every_index() {
    let claimed = run_workers(4, 2, &[0]);
    assert_eq!(claimed[0], vec![0, 1, 2, 3]);
    assert!(claimed[1].is_empty());
}
