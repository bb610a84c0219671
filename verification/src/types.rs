//! Plain descriptions of cluster objects as the caller-facing layer consumes
//! them, the rendering of an object's age, and the descriptor of a registered
//! port-forward together with its mathematical view.

use vstd::prelude::*;
use vstd::string::StringExecFns;

use crate::text::{append_dec, dec_of};

verus! {

/// The age of an object rendered from its elapsed seconds: whole days when
/// at least one passed, else whole hours, else whole minutes, else the
/// seconds themselves (negative when the clock ran backwards).
pub open spec fn age_rendered(seconds: int) -> Seq<char> {
    if seconds >= 86400 {
        dec_of((seconds / 86400) as nat) + seq!['d']
    } else if seconds >= 3600 {
        dec_of((seconds / 3600) as nat) + seq!['h']
    } else if seconds >= 60 {
        dec_of((seconds / 60) as nat) + seq!['m']
    } else if seconds >= 0 {
        dec_of(seconds as nat) + seq!['s']
    } else {
        seq!['-'] + dec_of((-seconds) as nat) + seq!['s']
    }
}

/// Renders the age of an object from the seconds elapsed since its creation.
pub fn format_age(seconds: i64) -> (r: String)
    ensures
        r@ == age_rendered(seconds as int),
{
    proof {
        reveal_strlit("d");
        reveal_strlit("h");
        reveal_strlit("m");
        reveal_strlit("s");
        reveal_strlit("-");
        assert("d"@ =~= seq!['d']);
        assert("h"@ =~= seq!['h']);
        assert("m"@ =~= seq!['m']);
        assert("s"@ =~= seq!['s']);
        assert("-"@ =~= seq!['-']);
    }
    let mut out = String::new();
    if seconds >= 86400 {
        append_dec((seconds / 86400) as u64, &mut out);
        out.append("d");
    } else if seconds >= 3600 {
        append_dec((seconds / 3600) as u64, &mut out);
        out.append("h");
    } else if seconds >= 60 {
        append_dec((seconds / 60) as u64, &mut out);
        out.append("m");
    } else if seconds >= 0 {
        append_dec(seconds as u64, &mut out);
        out.append("s");
    } else {
        // the magnitude, computed without overflowing on the extreme value
        let magnitude: u64 = (-(seconds + 1)) as u64 + 1;
        proof {
            assert(magnitude == -(seconds as int));
        }
        out.append("-");
        append_dec(magnitude, &mut out);
        out.append("s");
    }
    proof {
        assert(out@ =~= age_rendered(seconds as int));
    }
    out
}

/// A cluster as named in a kubeconfig, with its API server address.
#[derive(Debug, Clone, PartialEq, Eq)]
pub struct ClusterInfo {
    pub name: String,
    pub server: String,
    pub current: bool,
}

/// A kubeconfig context and whether it is the active one.
#[derive(Debug, Clone, PartialEq, Eq)]
pub struct ContextInfo {
    pub name: String,
    pub cluster: String,
    pub namespace: Option<String>,
    pub user: String,
    pub current: bool,
}

/// A namespace with its lifecycle status.
#[derive(Debug, Clone, PartialEq, Eq)]
pub struct NamespaceInfo {
    pub name: String,
    pub status: String,
    pub age: String,
}

/// A pod as shown in a listing.
#[derive(Debug, Clone, PartialEq, Eq)]
pub struct PodInfo {
    pub name: String,
    pub namespace: String,
    pub status: String,
    pub ready: String,
    pub restarts: i32,
    pub age: String,
    pub node: Option<String>,
    pub ip: Option<String>,
    pub ports: Vec<i32>,
    pub labels: Option<std::collections::HashMap<String, String>>,
    pub annotations: Option<std::collections::HashMap<String, String>>,
}

/// A deployment as shown in a listing.
#[derive(Debug, Clone, PartialEq, Eq)]
pub struct DeploymentInfo {
    pub name: String,
    pub namespace: String,
    pub ready: String,
    pub up_to_date: i32,
    pub available: i32,
    pub age: String,
}

/// A service as shown in a listing.
#[derive(Debug, Clone, PartialEq, Eq)]
pub struct ServiceInfo {
    pub name: String,
    pub namespace: String,
    pub service_type: String,
    pub cluster_ip: String,
    pub external_ip: Option<String>,
    pub ports: String,
    pub selector: Option<std::collections::HashMap<String, String>>,
    pub age: String,
}

/// One line of pod log output.
#[derive(Debug, Clone, PartialEq, Eq)]
pub struct LogEntry {
    pub timestamp: Option<String>,
    pub message: String,
    pub pod_name: String,
}

/// A caller's request to forward a local port to a pod.
#[derive(Debug, Clone, PartialEq, Eq)]
pub struct PortForwardRequest {
    pub namespace: String,
    pub pod_name: String,
    pub local_port: u16,
    pub remote_port: u16,
}

/// An ingress as shown in a listing.
#[derive(Debug, Clone, PartialEq, Eq)]
pub struct IngressInfo {
    pub name: String,
    pub namespace: String,
    pub class: Option<String>,
    pub hosts: Vec<String>,
    pub addresses: Vec<String>,
    pub age: String,
    pub tls: bool,
    pub rules: Vec<IngressRule>,
}

/// One host rule of an ingress.
#[derive(Debug, Clone, PartialEq, Eq)]
pub struct IngressRule {
    pub host: String,
    pub paths: Vec<IngressPath>,
}

/// One path of an ingress rule.
#[derive(Debug, Clone, PartialEq, Eq)]
pub struct IngressPath {
    pub path: String,
    pub path_type: String,
    pub service: String,
    pub port: String,
}

/// An Istio virtual service as shown in a listing.
#[derive(Debug, Clone, PartialEq, Eq)]
pub struct IstioVirtualServiceInfo {
    pub name: String,
    pub namespace: String,
    pub hosts: Vec<String>,
    pub gateways: Vec<String>,
    pub age: String,
    pub routes: Vec<VirtualServiceRoute>,
}

/// One route of a virtual service.
#[derive(Debug, Clone, PartialEq, Eq)]
pub struct VirtualServiceRoute {
    pub match_conditions: Vec<RouteMatch>,
    pub destination_host: String,
    pub destination_port: Option<u16>,
    pub weight: Option<u16>,
}

/// One match condition of a virtual service route.
#[derive(Debug, Clone, PartialEq, Eq)]
pub struct RouteMatch {
    pub uri_prefix: Option<String>,
    pub uri_exact: Option<String>,
    pub uri_regex: Option<String>,
    pub headers: Vec<String>,
}

/// An Istio gateway as shown in a listing.
#[derive(Debug, Clone, PartialEq, Eq)]
pub struct IstioGatewayInfo {
    pub name: String,
    pub namespace: String,
    pub servers: Vec<GatewayServer>,
    pub age: String,
}

/// One server entry of an Istio gateway.
#[derive(Debug, Clone, PartialEq, Eq)]
pub struct GatewayServer {
    pub port: u16,
    pub protocol: String,
    pub hosts: Vec<String>,
}

/// A config map with its decoded data.
#[derive(Debug, Clone, PartialEq, Eq)]
pub struct ConfigMapInfo {
    pub name: String,
    pub namespace: String,
    pub data: std::collections::HashMap<String, String>,
    pub age: String,
    pub keys: usize,
}

/// A secret with its decoded data.
#[derive(Debug, Clone, PartialEq, Eq)]
pub struct SecretInfo {
    pub name: String,
    pub namespace: String,
    pub secret_type: String,
    pub data: std::collections::HashMap<String, String>,
    pub age: String,
    pub keys: usize,
}

/// A stateful set as shown in a listing.
#[derive(Debug, Clone, PartialEq, Eq)]
pub struct StatefulSetInfo {
    pub name: String,
    pub namespace: String,
    pub ready: String,
    pub replicas: i32,
    pub age: String,
}

/// A daemon set as shown in a listing.
#[derive(Debug, Clone, PartialEq, Eq)]
pub struct DaemonSetInfo {
    pub name: String,
    pub namespace: String,
    pub desired: i32,
    pub current: i32,
    pub ready: i32,
    pub up_to_date: i32,
    pub available: i32,
    pub age: String,
}

/// A job as shown in a listing.
#[derive(Debug, Clone, PartialEq, Eq)]
pub struct JobInfo {
    pub name: String,
    pub namespace: String,
    pub completions: String,
    pub duration: String,
    pub age: String,
    pub active: i32,
    pub succeeded: i32,
    pub failed: i32,
}

/// A cron job as shown in a listing.
#[derive(Debug, Clone, PartialEq, Eq)]
pub struct CronJobInfo {
    pub name: String,
    pub namespace: String,
    pub schedule: String,
    pub suspend: bool,
    pub active: i32,
    pub last_schedule: Option<String>,
    pub age: String,
}

/// A node with its capacities.
#[derive(Debug, Clone, PartialEq, Eq)]
pub struct NodeInfo {
    pub name: String,
    pub status: String,
    pub roles: Vec<String>,
    pub age: String,
    pub version: String,
    pub internal_ip: String,
    pub external_ip: Option<String>,
    pub os_image: String,
    pub kernel_version: String,
    pub container_runtime: String,
    pub cpu_capacity: String,
    pub cpu_allocatable: String,
    pub memory_capacity: String,
    pub memory_allocatable: String,
    pub pods_capacity: String,
    pub pods_allocatable: String,
    pub gpu_capacity: Option<String>,
}

/// A cluster event.
#[derive(Debug, Clone, PartialEq, Eq)]
pub struct EventInfo {
    pub event_type: String,
    pub reason: String,
    pub object: String,
    pub message: String,
    pub source: String,
    pub first_seen: String,
    pub last_seen: String,
    pub count: i32,
}

/// A persistent volume as shown in a listing.
#[derive(Debug, Clone, PartialEq, Eq)]
pub struct PersistentVolumeInfo {
    pub name: String,
    pub capacity: String,
    pub access_modes: Vec<String>,
    pub reclaim_policy: String,
    pub status: String,
    pub claim: Option<String>,
    pub storage_class: Option<String>,
    pub age: String,
}

/// A persistent volume claim as shown in a listing.
#[derive(Debug, Clone, PartialEq, Eq)]
pub struct PersistentVolumeClaimInfo {
    pub name: String,
    pub namespace: String,
    pub status: String,
    pub volume: Option<String>,
    pub capacity: Option<String>,
    pub access_modes: Vec<String>,
    pub storage_class: Option<String>,
    pub age: String,
}

/// A namespaced role.
#[derive(Debug, Clone, PartialEq, Eq)]
pub struct RoleInfo {
    pub name: String,
    pub namespace: String,
    pub age: String,
    pub rules_count: usize,
}

/// A namespaced role binding.
#[derive(Debug, Clone, PartialEq, Eq)]
pub struct RoleBindingInfo {
    pub name: String,
    pub namespace: String,
    pub role: String,
    pub role_kind: String,
    pub subjects: Vec<SubjectInfo>,
    pub age: String,
}

/// A cluster-wide role.
#[derive(Debug, Clone, PartialEq, Eq)]
pub struct ClusterRoleInfo {
    pub name: String,
    pub age: String,
    pub rules_count: usize,
}

/// A cluster-wide role binding.
#[derive(Debug, Clone, PartialEq, Eq)]
pub struct ClusterRoleBindingInfo {
    pub name: String,
    pub role: String,
    pub subjects: Vec<SubjectInfo>,
    pub age: String,
}

/// A service account.
#[derive(Debug, Clone, PartialEq, Eq)]
pub struct ServiceAccountInfo {
    pub name: String,
    pub namespace: String,
    pub secrets: usize,
    pub age: String,
}

/// A subject of a role binding.
#[derive(Debug, Clone, PartialEq, Eq)]
pub struct SubjectInfo {
    pub kind: String,
    pub name: String,
    pub namespace: Option<String>,
}

/// A custom resource definition as shown in a listing.
#[derive(Debug, Clone, PartialEq, Eq)]
pub struct CRDInfo {
    pub name: String,
    pub group: String,
    pub version: String,
    pub kind: String,
    pub plural: String,
    pub singular: String,
    pub scope: String,
    pub age: String,
    pub categories: Vec<String>,
}

/// The descriptor of one registered port-forward: the deterministic session
/// id, the forwarded object, the port pair, and the advertised status.
#[derive(Debug, PartialEq, Eq)]
pub struct PortForwardInfo {
    pub id: String,
    pub resource_type: String,
    pub resource_name: String,
    pub namespace: String,
    pub local_port: u16,
    pub remote_port: u16,
    pub status: String,
}

/// The mathematical view of a [`PortForwardInfo`]: every string as its
/// character sequence.
pub ghost struct PortForwardInfoV {
    pub id: Seq<char>,
    pub resource_type: Seq<char>,
    pub resource_name: Seq<char>,
    pub namespace: Seq<char>,
    pub local_port: u16,
    pub remote_port: u16,
    pub status: Seq<char>,
}

impl View for PortForwardInfo {
    type V = PortForwardInfoV;

    open spec fn view(&self) -> PortForwardInfoV {
        PortForwardInfoV {
            id: self.id@,
            resource_type: self.resource_type@,
            resource_name: self.resource_name@,
            namespace: self.namespace@,
            local_port: self.local_port,
            remote_port: self.remote_port,
            status: self.status@,
        }
    }
}

impl Clone for PortForwardInfo {
    fn clone(&self) -> (r: Self)
        ensures
            r == *self,
    {
        PortForwardInfo {
            id: self.id.clone(),
            resource_type: self.resource_type.clone(),
            resource_name: self.resource_name.clone(),
            namespace: self.namespace.clone(),
            local_port: self.local_port,
            remote_port: self.remote_port,
            status: self.status.clone(),
        }
    }
}

} // verus!
