use vstd::prelude::*;

verus! {

/// The stable part of the health report; the boundary adds the
/// generation timestamp when it serializes the record.
#[derive(Debug, Clone)]
pub struct HealthInfo {
    pub status: String,
    pub service: String,
    pub version: String,
}

/// The health report of a running service: always healthy, under the
/// service's fixed name and version.
pub fn health_payload() -> (r: HealthInfo)
    ensures
        r.status@ == "healthy"@,
        r.service@ == "png-to-webp-converter"@,
        r.version@ == "0.1.0"@,
{
    HealthInfo {
        status: "healthy".to_owned(),
        service: "png-to-webp-converter".to_owned(),
        version: "0.1.0".to_owned(),
    }
}

} // verus!
