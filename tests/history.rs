use mesh_history::history::{PrevIpTable, CAPACITY};

fn s(x: &str) -> String {
    x.to_string()
}

fn table_of(uses: &[&str]) -> PrevIpTable {
    let mut t = PrevIpTable::new();
    for u in uses {
        let back = t.add_prev_ip(s(u));
        assert_eq!(back, s(u));
    }
    t
}

#[test]
fn new_address_enters_at_rank_zero() {
    let t = table_of(&["x"]);
    assert_eq!(t.len(), 1);
    assert_eq!(t.rank(&s("x")), Some(0));
    let t = table_of(&["x", "y"]);
    assert_eq!(t.rank(&s("y")), Some(0));
    assert_eq!(t.rank(&s("x")), Some(1));
}

#[test]
fn history_never_exceeds_capacity() {
    let mut t = PrevIpTable::new();
    for i in 0..40 {
        t.add_prev_ip(format!("10.0.0.{}:4403", i % 9));
        assert!(t.len() <= CAPACITY);
    }
    assert_eq!(t.len(), CAPACITY);
}

#[test]
fn using_twice_keeps_rank_zero() {
    let mut t = table_of(&["a", "b", "c"]);
    t.add_prev_ip(s("b"));
    t.add_prev_ip(s("b"));
    assert_eq!(t.rank(&s("b")), Some(0));
    assert_eq!(t.rank(&s("c")), Some(1));
    assert_eq!(t.rank(&s("a")), Some(2));
    assert_eq!(t.len(), 3);
}

#[test]
fn promotion_shifts_only_more_recent_records() {
    // ranks {x:0, y:1, z:2}
    let mut t = table_of(&["z", "y", "x"]);
    assert_eq!(t.rank(&s("x")), Some(0));
    assert_eq!(t.rank(&s("y")), Some(1));
    assert_eq!(t.rank(&s("z")), Some(2));
    t.add_prev_ip(s("z"));
    assert_eq!(t.rank(&s("z")), Some(0));
    assert_eq!(t.rank(&s("x")), Some(1));
    assert_eq!(t.rank(&s("y")), Some(2));
}

#[test]
fn promotion_leaves_less_recent_records() {
    let mut t = table_of(&["d", "c", "b", "a"]);
    // a:0 b:1 c:2 d:3; promote b
    t.add_prev_ip(s("b"));
    assert_eq!(t.rank(&s("b")), Some(0));
    assert_eq!(t.rank(&s("a")), Some(1));
    assert_eq!(t.rank(&s("c")), Some(2));
    assert_eq!(t.rank(&s("d")), Some(3));
}

#[test]
fn seventh_address_evicts_least_recent() {
    let mut t = table_of(&["a1", "a2", "a3", "a4", "a5", "a6"]);
    assert_eq!(t.rank(&s("a1")), Some(5));
    t.add_prev_ip(s("a7"));
    assert_eq!(t.len(), 6);
    assert_eq!(t.rank(&s("a1")), None);
    assert_eq!(t.rank(&s("a7")), Some(0));
    assert_eq!(t.rank(&s("a6")), Some(1));
    assert_eq!(t.rank(&s("a5")), Some(2));
    assert_eq!(t.rank(&s("a4")), Some(3));
    assert_eq!(t.rank(&s("a3")), Some(4));
    assert_eq!(t.rank(&s("a2")), Some(5));
}

#[test]
fn empty_pattern_lists_everything() {
    let t = table_of(&["192.168.1.5:4403", "10.0.0.2:4403", "meshnode.local:4403"]);
    let all = t.get_prev_ips(&s(""));
    assert_eq!(all, vec![s("meshnode.local:4403"), s("10.0.0.2:4403"), s("192.168.1.5:4403")]);
    assert!(PrevIpTable::new().get_prev_ips(&s("")).is_empty());
}

#[test]
fn pattern_selects_substring_matches() {
    let t = table_of(&["192.168.1.5:4403", "10.0.0.2:4403", "192.168.1.77:80"]);
    assert_eq!(t.get_prev_ips(&s("192.168")), vec![s("192.168.1.77:80"), s("192.168.1.5:4403")]);
    assert_eq!(t.get_prev_ips(&s("0.0.2")), vec![s("10.0.0.2:4403")]);
    assert_eq!(t.get_prev_ips(&s(".5:")), vec![s("192.168.1.5:4403")]);
    assert!(t.get_prev_ips(&s("nothing")).is_empty());
    assert!(t.get_prev_ips(&s("192.168.1.5:4403-longer")).is_empty());
}

#[test]
fn any_interleaving_stays_within_capacity() {
    let first = ["a:1", "b:1", "c:1", "d:1", "e:1", "f:1", "g:1", "a:1"];
    let second = ["h:1", "a:1", "i:1", "b:1", "j:1", "c:1", "k:1", "l:1"];
    let mut one = PrevIpTable::new();
    let mut other = PrevIpTable::new();
    for i in 0..first.len() {
        one.add_prev_ip(s(first[i]));
        one.add_prev_ip(s(second[i]));
        other.add_prev_ip(s(second[i]));
        other.add_prev_ip(s(first[i]));
        assert!(one.len() <= CAPACITY);
        assert!(other.len() <= CAPACITY);
    }
    assert_eq!(one.len(), CAPACITY);
    assert_eq!(other.len(), CAPACITY);
    assert_eq!(one.rank(&s("l:1")), Some(0));
    assert_eq!(other.rank(&s("a:1")), Some(0));
    assert_eq!(other.rank(&s("l:1")), Some(1));
}
