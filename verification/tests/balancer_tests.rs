use container_gateway::balancer::{select_instance, Container, LoadBalancer, Selection};

fn pool(references: &[&str]) -> LoadBalancer {
    LoadBalancer {
        image_name: "svc".to_string(),
        containers: references.iter().map(|r| r.to_string()).collect(),
    }
}

const KEY_A: &str = "53e37d08776f724e42000000";
const KEY_B: &str = "7FFFFFFF0000000000000000";
const KEY_C: &str = "00112233445566778899aAbB";

const BYTES_A: [u8; 12] = [0x53, 0xe3, 0x7d, 0x08, 0x77, 0x6f, 0x72, 0x4e, 0x42, 0, 0, 0];
const BYTES_B: [u8; 12] = [0x7f, 0xff, 0xff, 0xff, 0, 0, 0, 0, 0, 0, 0, 0];
const BYTES_C: [u8; 12] = [0x00, 0x11, 0x22, 0x33, 0x44, 0x55, 0x66, 0x77, 0x88, 0x99, 0xaa, 0xbb];

#[test]
fn empty_pool_gives_no_container() {
    assert_eq!(select_instance(&pool(&[]), 0), Selection::Empty);
    assert_eq!(select_instance(&pool(&[]), 5), Selection::Empty);
}

#[test]
fn single_container_is_always_picked() {
    let p = pool(&[KEY_A]);
    assert_eq!(select_instance(&p, 0), Selection::Picked { key: BYTES_A, next_cursor: 0 });
    assert_eq!(select_instance(&p, 1), Selection::Picked { key: BYTES_A, next_cursor: 0 });
    assert_eq!(select_instance(&p, usize::MAX), Selection::Picked { key: BYTES_A, next_cursor: 0 });
}

#[test]
fn key_is_decoded_from_hexadecimal_in_either_case() {
    assert_eq!(select_instance(&pool(&[KEY_B]), 0), Selection::Picked { key: BYTES_B, next_cursor: 0 });
    assert_eq!(select_instance(&pool(&[KEY_C]), 0), Selection::Picked { key: BYTES_C, next_cursor: 0 });
}

#[test]
fn cursor_is_taken_round_the_pool() {
    let p = pool(&[KEY_A, KEY_B, KEY_C]);
    assert_eq!(select_instance(&p, 0), Selection::Picked { key: BYTES_A, next_cursor: 1 });
    assert_eq!(select_instance(&p, 1), Selection::Picked { key: BYTES_B, next_cursor: 2 });
    assert_eq!(select_instance(&p, 2), Selection::Picked { key: BYTES_C, next_cursor: 0 });
    assert_eq!(select_instance(&p, 3), Selection::Picked { key: BYTES_A, next_cursor: 1 });
    assert_eq!(select_instance(&p, 7), Selection::Picked { key: BYTES_B, next_cursor: 2 });
}

#[test]
fn choices_in_a_row_visit_every_container_once() {
    let p = pool(&[KEY_A, KEY_B, KEY_C]);
    let mut cursor = 1;
    let mut seen = Vec::new();
    for _ in 0..3 {
        match select_instance(&p, cursor) {
            Selection::Picked { key, next_cursor } => {
                seen.push(key);
                cursor = next_cursor;
            }
            other => panic!("unexpected selection {:?}", other),
        }
    }
    assert_eq!(seen, vec![BYTES_B, BYTES_C, BYTES_A]);
    assert_eq!(cursor, 1);
}

#[test]
fn malformed_reference_is_reported_and_passed_over() {
    let short = "53e37d08776f724e4200000";
    let long = "53e37d08776f724e4200000000";
    let not_hex = "53e37d08776f724e4200000g";
    let p = pool(&[short, KEY_A, long, not_hex, ""]);
    assert_eq!(select_instance(&p, 0), Selection::Malformed { next_cursor: 1 });
    assert_eq!(select_instance(&p, 1), Selection::Picked { key: BYTES_A, next_cursor: 2 });
    assert_eq!(select_instance(&p, 2), Selection::Malformed { next_cursor: 3 });
    assert_eq!(select_instance(&p, 3), Selection::Malformed { next_cursor: 4 });
    assert_eq!(select_instance(&p, 4), Selection::Malformed { next_cursor: 0 });
}

#[test]
fn reference_with_other_text_is_malformed() {
    let p = pool(&["\u{e9}3e37d08776f724e4200000"]);
    assert_eq!(select_instance(&p, 0), Selection::Malformed { next_cursor: 0 });
}

#[test]
fn container_record_holds_handle_and_port() {
    let c = Container { container_id: "c0ffee".to_string(), public_port: 8443 };
    assert_eq!(c.container_id, "c0ffee");
    assert_eq!(c.public_port, 8443);
}
