//! Tests of the configuration value and endpoint building.

use permission_gateway::config::{PermissionsConfig, Ports, Service, Tls};

fn service() -> Service {
    Service {
        addr: "127.0.0.1".to_string(),
        ports: Ports {
            http: "8443".to_string(),
            http_health: "8080".to_string(),
            grpc: "50051".to_string(),
            grpc_health: "50052".to_string(),
        },
    }
}

#[test]
fn endpoints_join_address_and_port() {
    let service = service();
    assert_eq!(service.endpoint(&service.ports.http), "127.0.0.1:8443");
    assert_eq!(service.endpoint(&service.ports.http_health), "127.0.0.1:8080");
    assert_eq!(service.endpoint(&service.ports.grpc), "127.0.0.1:50051");
    assert_eq!(service.endpoint(&service.ports.grpc_health), "127.0.0.1:50052");
}

#[test]
fn a_config_carries_its_parts() {
    let config = PermissionsConfig {
        service: service(),
        tls: Tls {
            certificate: "server.cert.pem".to_string(),
            key: "server.key.pem".to_string(),
            cert_autority: "cacert.pem".to_string(),
        },
        kratos_url: "http://127.0.0.1:4434".to_string(),
    };
    assert_eq!(config.service.addr, "127.0.0.1");
    assert_eq!(config.tls.key, "server.key.pem");
    assert_eq!(config.kratos_url, "http://127.0.0.1:4434");
}
