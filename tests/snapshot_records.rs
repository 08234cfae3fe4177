use procscope::snapshot::{
    collect_procs, parent_name, process_name, user_name, Proc, RawProcess, UserEntry,
};

fn raw(pid: u32, parent: Option<u32>, name: Option<&str>, user_id: Option<u32>) -> RawProcess {
    RawProcess {
        pid,
        parent,
        name: name.map(|n| n.to_string()),
        user_id,
        memory: 0,
        cpu_usage_ppm: 0,
    }
}

fn users() -> Vec<UserEntry> {
    vec![
        UserEntry { id: 0, name: "root".to_string() },
        UserEntry { id: 1000, name: "alice".to_string() },
        UserEntry { id: 1000, name: "shadow".to_string() },
    ]
}

fn table() -> Vec<RawProcess> {
    vec![
        raw(1, None, Some("init"), Some(0)),
        raw(200, Some(1), Some("sshd"), Some(0)),
        raw(300, Some(200), None, Some(1000)),
        raw(400, Some(300), Some("bash"), Some(1000)),
        raw(500, Some(999), Some("orphan"), None),
    ]
}

#[test]
fn process_without_parent_shows_not_found() {
    let procs = table();
    assert_eq!(parent_name(&procs, None), "Not Found");
    let p = Proc::new(&procs[0], &procs, &users(), 1000, 1);
    assert_eq!(p.parent, "Not Found");
}

#[test]
fn parent_is_named_from_the_same_snapshot() {
    let procs = table();
    assert_eq!(parent_name(&procs, Some(1)), "init");
    assert_eq!(parent_name(&procs, Some(200)), "sshd");
}

#[test]
fn missing_parent_shows_not_found() {
    let procs = table();
    assert_eq!(parent_name(&procs, Some(999)), "Not Found");
    assert_eq!(parent_name(&Vec::new(), Some(1)), "Not Found");
}

#[test]
fn undecodable_parent_name_shows_not_found() {
    let procs = table();
    assert_eq!(parent_name(&procs, Some(300)), "Not Found");
}

#[test]
fn undecodable_own_name_shows_unknown_name() {
    let procs = table();
    assert_eq!(process_name(&procs[2]), "Unknown Name");
    assert_eq!(process_name(&procs[3]), "bash");
}

#[test]
fn user_lookup_and_its_placeholders() {
    let u = users();
    assert_eq!(user_name(&u, Some(0)), "root");
    assert_eq!(user_name(&u, Some(1000)), "alice");
    assert_eq!(user_name(&u, Some(42)), "Unknown");
    assert_eq!(user_name(&u, None), "Unknown");
    assert_eq!(user_name(&Vec::new(), Some(0)), "Unknown");
}

#[test]
fn record_fields_follow_the_raw_counters() {
    let mut procs = table();
    procs[3].memory = 12345;
    procs[3].cpu_usage_ppm = 500_000;
    let p = Proc::new(&procs[3], &procs, &users(), 100000, 4);
    assert_eq!(p.pid, 400);
    assert_eq!(p.name, "bash");
    assert_eq!(p.user, "alice");
    assert_eq!(p.parent, "Not Found");
    assert_eq!(p.memory, "12.35 %");
    assert_eq!(p.cpu, "12.50 %");
}

#[test]
fn snapshot_keeps_every_process_in_order() {
    let procs = table();
    let out = collect_procs(&procs, &users(), 1000, 2);
    let pids: Vec<u32> = out.iter().map(|p| p.pid).collect();
    assert_eq!(pids, vec![1, 200, 300, 400, 500]);
    assert_eq!(out[1].parent, "init");
    assert_eq!(out[1].user, "root");
    assert_eq!(out[4].parent, "Not Found");
    assert_eq!(out[4].user, "Unknown");
    assert_eq!(out[2].name, "Unknown Name");
}

#[test]
fn pid_seen_twice_is_listed_twice_while_cpu_may_change() {
    let mut first = table();
    let mut second = table();
    first[3].cpu_usage_ppm = 100_000;
    second[3].cpu_usage_ppm = 300_000;
    second.remove(0);
    let a = collect_procs(&first, &users(), 1000, 1);
    let b = collect_procs(&second, &users(), 1000, 1);
    let in_a = a.iter().find(|p| p.pid == 400).unwrap();
    let in_b = b.iter().find(|p| p.pid == 400).unwrap();
    assert_eq!(in_a.pid, in_b.pid);
    assert_eq!(in_a.cpu, "10.00 %");
    assert_eq!(in_b.cpu, "30.00 %");
}

#[test]
fn empty_snapshot_gives_no_records() {
    assert!(collect_procs(&Vec::new(), &users(), 1000, 1).is_empty());
}
