use std::time::Duration;

use maviola::closable::SharedCloser;
use maviola::marker::{HasConnConf, MaybeConnConf};
use maviola::node_conf::IntoNodeConf;
use maviola::sealed::Sealed;
use maviola::flipper::{Guarded, Switch};
use maviola::network::Network;
use maviola::node::NodeState;
use maviola::retry::Retry;
use maviola::consts::{default_heartbeat_interval, default_heartbeat_timeout};
use maviola::node_builder::NodeBuilder;
use maviola::node_conf::NodeConf;
use maviola::protocol::MavLinkId;
use mavio::protocol::{CompatProcessor, Unset, V2};

#[test]
fn default_heartbeat_timing() {
    assert_eq!(default_heartbeat_timeout(), Duration::from_millis(1200));
    assert_eq!(default_heartbeat_interval(), Duration::from_millis(1000));
}

#[test]
fn mavlink_id_keeps_both_ids() {
    let id = MavLinkId::new(10, 42);
    assert_eq!(id.system, 10);
    assert_eq!(id.component, 42);
}

#[test]
fn builder_starts_with_defaults() {
    let text = format!("{:?}", NodeConf::builder());
    assert!(text.contains("system_id: Unset"));
    assert!(text.contains("component_id: Unset"));
    assert!(text.contains("conn_conf: Unset"));
    assert!(text.contains("heartbeat_timeout: 1.2s"));
    assert!(text.contains("heartbeat_interval: 1s"));
    assert!(text.contains("compat: None"));
}

#[test]
fn builder_sets_ids_one_by_one() {
    let builder = NodeBuilder::new().system_id(10).component_id(42);
    let text = format!("{:?}", builder);
    assert!(text.contains("system_id: HasSystemId(10)"));
    assert!(text.contains("component_id: HasComponentId(42)"));
    assert!(text.contains("heartbeat_timeout: 1.2s"));
}

#[test]
fn builder_sets_ids_together_and_timing() {
    let builder = NodeBuilder::default()
        .version::<V2>()
        .id(MavLinkId::new(1, 17))
        .heartbeat_timeout(Duration::from_millis(500))
        .heartbeat_interval(Duration::from_millis(250));
    let text = format!("{:?}", builder);
    assert!(text.contains("system_id: HasSystemId(1)"));
    assert!(text.contains("component_id: HasComponentId(17)"));
    assert!(text.contains("heartbeat_timeout: 500ms"));
    assert!(text.contains("heartbeat_interval: 250ms"));
    assert!(text.contains("V2"));
}

#[test]
fn builder_sets_compat() {
    let builder = NodeBuilder::new().compat(CompatProcessor::builder().build());
    let text = format!("{:?}", builder);
    assert!(text.contains("compat: Some(CompatProcessor"));
    let copy = builder.clone();
    assert_eq!(format!("{:?}", copy), text);
}

#[test]
fn node_state_reports_connection_and_activity() {

    let state = SharedCloser::new();
    let mut handle = state.clone();
    let mut active: Guarded<SharedCloser, Switch> = Guarded::shared();
    active.set(true);
    let mut node = NodeState::new(
        state,
        active,
        Duration::from_millis(1200),
        Duration::from_millis(1000),
    );
    assert!(node.is_connected());
    assert!(node.is_active());
    assert_eq!(node.heartbeat_timeout(), Duration::from_millis(1200));
    assert_eq!(node.heartbeat_interval(), Duration::from_millis(1000));

    handle.close();
    assert!(!node.is_connected());
    node.deactivate();
    assert!(node.is_active());
}

#[test]
fn node_state_deactivates_when_connected() {

    let mut active: Guarded<SharedCloser, Switch> = Guarded::shared();
    active.set(true);
    let watcher = active.to_watcher();
    let mut node = NodeState::new(
        SharedCloser::new(),
        active,
        Duration::from_millis(500),
        Duration::from_millis(250),
    );
    node.deactivate();
    assert!(!node.is_active());
    assert!(!watcher.is());
    node.deactivate();
    assert!(!node.is_active());
}

#[test]
fn network_settings() {

    let network: Network<V2, Unset> = Network::new(Retry::Never, false);
    let network = network
        .retry(Retry::Attempts(3, Duration::from_millis(10)))
        .stop_on_node_down(true);
    let text = format!("{:?}", network);
    assert!(text.contains("retry: Attempts(3, 10ms)"));
    assert!(text.contains("stop_on_node_down: true"));
    assert!(text.contains("nodes: {}"));
}

#[derive(Debug, Clone)]
struct TestConn {
    repairable: bool,
}

impl Sealed for TestConn {}
impl MaybeConnConf for TestConn {}
impl HasConnConf for TestConn {
    fn is_repairable(&self) -> bool {
        self.repairable
    }
}

#[test]
fn conf_reports_ids_given_to_builder() {
    let conf = NodeConf::builder()
        .system_id(10)
        .component_id(42)
        .connection(TestConn { repairable: true })
        .conf();
    assert_eq!(conf.system_id(), 10);
    assert_eq!(conf.component_id(), 42);
    assert_eq!(conf.heartbeat_timeout(), Duration::from_millis(1200));
    assert_eq!(conf.heartbeat_interval(), Duration::from_millis(1000));
    assert!(conf.compat().is_none());
    assert!(conf.is_repairable());
}

#[test]
fn conf_without_ids_is_a_proxy() {
    let conf = NodeBuilder::new()
        .heartbeat_timeout(Duration::from_millis(700))
        .compat(CompatProcessor::builder().build())
        .connection(TestConn { repairable: false })
        .into_node_conf();
    assert_eq!(conf.heartbeat_timeout(), Duration::from_millis(700));
    assert!(conf.compat().is_some());
    assert!(!conf.is_repairable());
}

#[test]
fn into_proxy_resets_interval_only() {
    let conf = NodeBuilder::new()
        .id(MavLinkId::new(1, 2))
        .heartbeat_timeout(Duration::from_millis(300))
        .heartbeat_interval(Duration::from_millis(50))
        .connection(TestConn { repairable: true })
        .conf();
    assert_eq!(conf.heartbeat_interval(), Duration::from_millis(50));
    let proxy = conf.into_proxy();
    assert_eq!(proxy.heartbeat_timeout(), Duration::from_millis(300));
    assert!(proxy.is_repairable());
    let text = format!("{:?}", proxy);
    assert!(text.contains("heartbeat_interval: 1s"));
}

#[test]
fn network_adds_proxy_nodes() {
    let conf = NodeBuilder::new()
        .id(MavLinkId::new(1, 2))
        .heartbeat_interval(Duration::from_millis(50))
        .connection(TestConn { repairable: true })
        .conf();
    let network: Network<mavio::protocol::Versionless, TestConn> = Network::new(Retry::Never, false);
    let network = network.add_node(maviola::unique_id::UniqueId::new(7), conf);
    let text = format!("{:?}", network);
    assert!(text.contains("7: NodeConf"));
    assert!(text.contains("heartbeat_interval: 1s"));
}
