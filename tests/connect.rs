use std::time::{Duration, Instant};

use opentier_api::calls::{bootstrap_mode, channel_settings, ConnectMode};
use opentier_api::timeouts::RpcTimeouts;

#[test]
fn lazy_connect_to_an_unreachable_address_returns_at_once() {
    let settings = channel_settings(&RpcTimeouts::default());
    let runtime = tokio::runtime::Builder::new_current_thread().enable_all().build().unwrap();
    runtime.block_on(async {
        let endpoint = tonic::transport::Endpoint::from_shared("http://127.0.0.1:9".to_string())
            .unwrap()
            .connect_timeout(Duration::from_millis(settings.connect_timeout_ms));
        let eager = endpoint.connect().await;
        assert!(eager.is_err());
        assert_eq!(bootstrap_mode(eager.is_ok()), ConnectMode::Lazy);
        let start = Instant::now();
        let _channel = endpoint.connect_lazy();
        assert!(start.elapsed() < Duration::from_secs(1));
    });
}
