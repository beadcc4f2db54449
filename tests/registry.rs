use std::collections::HashMap;

use session_manager::domain::{MicroserviceInfo, ServiceStatus};
use session_manager::services::MicroserviceRegistry;

fn info(id: &str) -> MicroserviceInfo {
    MicroserviceInfo::new(id.to_string(), format!("http://{}:9000", id), HashMap::new())
}

#[test]
fn register_get_and_count() {
    let mut reg = MicroserviceRegistry::new();
    assert_eq!(reg.get_service_count(), 0);
    reg.register_service(info("a")).unwrap();
    reg.register_service(info("b")).unwrap();
    reg.register_service(info("a")).unwrap();
    assert_eq!(reg.get_service_count(), 2);
    let a = reg.get_service("a").unwrap().unwrap();
    assert_eq!(a.endpoint, "http://a:9000");
    assert_eq!(a.status, ServiceStatus::Registered);
    assert!(reg.get_service("zz").unwrap().is_none());
}

#[test]
fn availability_filters() {
    let mut reg = MicroserviceRegistry::new();
    for id in ["a", "b", "c", "d"] {
        reg.register_service(info(id)).unwrap();
    }
    reg.update_service_status("b", ServiceStatus::Joining).unwrap();
    reg.update_service_status("c", ServiceStatus::Ready).unwrap();
    reg.update_service_status("d", ServiceStatus::Disconnected).unwrap();
    reg.update_service_status("nope", ServiceStatus::Ready).unwrap();
    let mut avail: Vec<String> = reg.get_all_available_services().unwrap().into_iter().map(|m| m.service_id).collect();
    avail.sort();
    assert_eq!(avail, vec!["a".to_string(), "c".to_string()]);
    let ids = vec!["d".to_string(), "c".to_string(), "x".to_string(), "a".to_string()];
    let got: Vec<String> = reg.get_services_by_ids(&ids).unwrap().into_iter().map(|m| m.service_id).collect();
    assert_eq!(got, vec!["c".to_string(), "a".to_string()]);
    assert_eq!(reg.list_all_services().unwrap().len(), 4);
}

#[test]
fn unregister_removes() {
    let mut reg = MicroserviceRegistry::new();
    reg.register_service(info("a")).unwrap();
    reg.unregister_service("a").unwrap();
    reg.unregister_service("a").unwrap();
    assert_eq!(reg.get_service_count(), 0);
    assert!(reg.get_service("a").unwrap().is_none());
}

#[test]
fn descriptor_availability() {
    let mut m = info("a");
    assert!(m.is_available());
    m.update_status(ServiceStatus::Joining);
    assert!(!m.is_available());
    m.update_status(ServiceStatus::Ready);
    assert!(m.is_available());
}
