use lchat::server::client_manager::{
    add_client, create_clients_list, get_client_count, remove_client, snapshot, Client,
    ClientRegistry,
};

fn ids(clients: &ClientRegistry) -> Vec<u64> {
    snapshot(clients).iter().map(|c| c.id).collect()
}

fn names(clients: &ClientRegistry) -> Vec<String> {
    snapshot(clients).iter().map(|c| c.name.clone()).collect()
}

#[test]
fn a_new_registry_is_empty() {
    let clients = create_clients_list();
    assert_eq!(get_client_count(&clients), 0);
    assert!(snapshot(&clients).is_empty());
}

#[test]
fn register_adds_one_client_at_the_end() {
    let mut clients = create_clients_list();
    add_client(&mut clients, 7, "alice".to_string());
    assert_eq!(get_client_count(&clients), 1);
    add_client(&mut clients, 3, "bob".to_string());
    assert_eq!(get_client_count(&clients), 2);
    add_client(&mut clients, 9, "carol".to_string());
    assert_eq!(get_client_count(&clients), 3);
    assert_eq!(ids(&clients), vec![7, 3, 9]);
    assert_eq!(names(&clients), vec!["alice", "bob", "carol"]);
}

#[test]
fn deregister_removes_that_client_alone() {
    let mut clients = create_clients_list();
    add_client(&mut clients, 1, "alice".to_string());
    add_client(&mut clients, 2, "bob".to_string());
    add_client(&mut clients, 3, "carol".to_string());
    remove_client(&mut clients, 2);
    assert_eq!(get_client_count(&clients), 2);
    assert_eq!(ids(&clients), vec![1, 3]);
    assert_eq!(names(&clients), vec!["alice", "carol"]);
    remove_client(&mut clients, 1);
    assert_eq!(ids(&clients), vec![3]);
    remove_client(&mut clients, 3);
    assert_eq!(get_client_count(&clients), 0);
    assert!(snapshot(&clients).is_empty());
}

#[test]
fn deregister_of_a_stranger_changes_nothing() {
    let mut clients = create_clients_list();
    remove_client(&mut clients, 5);
    assert_eq!(get_client_count(&clients), 0);
    add_client(&mut clients, 1, "alice".to_string());
    add_client(&mut clients, 2, "bob".to_string());
    remove_client(&mut clients, 5);
    assert_eq!(get_client_count(&clients), 2);
    assert_eq!(ids(&clients), vec![1, 2]);
    remove_client(&mut clients, 2);
    remove_client(&mut clients, 2);
    assert_eq!(ids(&clients), vec![1]);
}

#[test]
fn deregister_goes_by_connection_not_by_nickname() {
    let mut clients = create_clients_list();
    add_client(&mut clients, 1, "sam".to_string());
    add_client(&mut clients, 2, "sam".to_string());
    add_client(&mut clients, 3, "sam".to_string());
    remove_client(&mut clients, 2);
    assert_eq!(ids(&clients), vec![1, 3]);
    assert_eq!(names(&clients), vec!["sam", "sam"]);
}

#[test]
fn a_connection_registered_twice_leaves_at_once() {
    let mut clients = create_clients_list();
    add_client(&mut clients, 1, "alice".to_string());
    add_client(&mut clients, 2, "bob".to_string());
    add_client(&mut clients, 1, "alice again".to_string());
    assert_eq!(get_client_count(&clients), 3);
    remove_client(&mut clients, 1);
    assert_eq!(get_client_count(&clients), 1);
    assert_eq!(ids(&clients), vec![2]);
}

#[test]
fn a_snapshot_does_not_follow_the_registry() {
    let mut clients = create_clients_list();
    add_client(&mut clients, 1, "alice".to_string());
    let before: Vec<Client> = snapshot(&clients);
    add_client(&mut clients, 2, "bob".to_string());
    remove_client(&mut clients, 1);
    assert_eq!(before.len(), 1);
    assert_eq!(before[0].id, 1);
    assert_eq!(before[0].name, "alice");
    assert_eq!(ids(&clients), vec![2]);
}

#[test]
fn register_all_then_deregister_all_in_any_order() {
    let orders: [[u64; 4]; 6] = [
        [0, 1, 2, 3],
        [3, 2, 1, 0],
        [1, 3, 0, 2],
        [2, 0, 3, 1],
        [0, 2, 1, 3],
        [3, 0, 2, 1],
    ];
    for joining in orders {
        for leaving in orders {
            let mut clients = create_clients_list();
            for id in joining {
                add_client(&mut clients, id, format!("user{}", id));
            }
            assert_eq!(get_client_count(&clients), 4);
            for id in leaving {
                remove_client(&mut clients, id);
            }
            assert_eq!(get_client_count(&clients), 0);
            assert!(snapshot(&clients).is_empty());
        }
    }
}

#[test]
fn interleaved_sessions_leave_the_registry_empty() {
    let mut clients = create_clients_list();
    add_client(&mut clients, 1, "a".to_string());
    add_client(&mut clients, 2, "b".to_string());
    remove_client(&mut clients, 1);
    add_client(&mut clients, 3, "c".to_string());
    remove_client(&mut clients, 3);
    add_client(&mut clients, 4, "d".to_string());
    assert_eq!(ids(&clients), vec![2, 4]);
    remove_client(&mut clients, 2);
    remove_client(&mut clients, 4);
    assert_eq!(get_client_count(&clients), 0);
    assert!(snapshot(&clients).is_empty());
}

#[test]
fn client_clone_keeps_both_fields() {
    let c = Client { id: 12, name: "alice".to_string() };
    let d = c.clone();
    assert_eq!(d.id, 12);
    assert_eq!(d.name, "alice");
}
