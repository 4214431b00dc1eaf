use load_balancer::dashboard::{Model, Msg, Server};

#[test]
fn the_dashboard_starts_empty() {
    let model = Model::create();
    assert!(model.servers().is_empty());
}

#[test]
fn added_servers_are_numbered_by_their_place() {
    let mut model = Model::create();
    assert!(model.update(Msg::AddServer));
    assert!(model.update(Msg::AddServer));
    assert!(model.update(Msg::AddServer));
    assert_eq!(
        model.servers(),
        &vec![
            Server { id: 0, load: 0 },
            Server { id: 1, load: 0 },
            Server { id: 2, load: 0 },
        ]
    );
}

#[test]
fn removing_takes_the_server_with_that_id() {
    let mut model = Model::create();
    for _ in 0..4 {
        model.update(Msg::AddServer);
    }
    assert!(model.update(Msg::RemoveServer(1)));
    assert_eq!(
        model.servers(),
        &vec![
            Server { id: 0, load: 0 },
            Server { id: 2, load: 0 },
            Server { id: 3, load: 0 },
        ]
    );
}

#[test]
fn removing_an_unknown_id_changes_nothing() {
    let mut model = Model::create();
    model.update(Msg::AddServer);
    assert!(model.update(Msg::RemoveServer(7)));
    assert!(model.update(Msg::RemoveServer(-1)));
    assert_eq!(model.servers(), &vec![Server { id: 0, load: 0 }]);
}

#[test]
fn an_id_can_come_twice_and_both_are_removed() {
    let mut model = Model::create();
    model.update(Msg::AddServer);
    model.update(Msg::AddServer);
    model.update(Msg::RemoveServer(0));
    model.update(Msg::AddServer);
    assert_eq!(model.servers(), &vec![Server { id: 1, load: 0 }, Server { id: 1, load: 0 }]);
    model.update(Msg::RemoveServer(1));
    assert!(model.servers().is_empty());
}
