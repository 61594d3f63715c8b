//! Data-transfer models of the device provisioning exchange: plain records
//! with builder-style accessors, each stated exactly.

use vstd::prelude::*;

verus! {

/// A device registration request.
#[derive(Clone, Debug, PartialEq)]
pub struct DeviceRegistration {
    pub registration_id: Option<String>,
    pub tpm: Option<TpmAttestation>,
}

impl DeviceRegistration {
    /// An empty registration.
    pub fn new() -> (r: DeviceRegistration)
        ensures
            r.registration_id is None,
            r.tpm is None,
    {
        DeviceRegistration { registration_id: None, tpm: None }
    }

    pub fn set_registration_id(&mut self, registration_id: String)
        ensures
            *final(self) == (DeviceRegistration { registration_id: Some(registration_id), ..*old(self) }),
    {
        self.registration_id = Some(registration_id);
    }

    pub fn with_registration_id(self, registration_id: String) -> (r: DeviceRegistration)
        ensures
            r == (DeviceRegistration { registration_id: Some(registration_id), ..self }),
    {
        DeviceRegistration { registration_id: Some(registration_id), ..self }
    }

    pub fn registration_id(&self) -> (r: Option<&str>)
        ensures
            match self.registration_id {
                Some(s) => r matches Some(x) && x@ == s@,
                None => r is None,
            },
    {
        match &self.registration_id {
            Some(s) => Some(s.as_str()),
            None => None,
        }
    }

    pub fn reset_registration_id(&mut self)
        ensures
            *final(self) == (DeviceRegistration { registration_id: None, ..*old(self) }),
    {
        self.registration_id = None;
    }

    pub fn set_tpm(&mut self, tpm: TpmAttestation)
        ensures
            *final(self) == (DeviceRegistration { tpm: Some(tpm), ..*old(self) }),
    {
        self.tpm = Some(tpm);
    }

    pub fn with_tpm(self, tpm: TpmAttestation) -> (r: DeviceRegistration)
        ensures
            r == (DeviceRegistration { tpm: Some(tpm), ..self }),
    {
        DeviceRegistration { tpm: Some(tpm), ..self }
    }

    pub fn tpm(&self) -> (r: Option<&TpmAttestation>)
        ensures
            match self.tpm {
                Some(v) => r matches Some(x) && *x == v,
                None => r is None,
            },
    {
        match &self.tpm {
            Some(v) => Some(v),
            None => None,
        }
    }

    pub fn reset_tpm(&mut self)
        ensures
            *final(self) == (DeviceRegistration { tpm: None, ..*old(self) }),
    {
        self.tpm = None;
    }

}

impl Default for DeviceRegistration {
    fn default() -> (r: DeviceRegistration)
        ensures
            r.registration_id is None,
            r.tpm is None,
    {
        DeviceRegistration::new()
    }
}

/// Attestation via TPM.
#[derive(Clone, Debug, PartialEq)]
pub struct TpmAttestation {
    pub endorsement_key: String,
    pub storage_root_key: Option<String>,
}

impl TpmAttestation {
    pub fn new(endorsement_key: String) -> (r: TpmAttestation)
        ensures
            r.endorsement_key == endorsement_key,
            r.storage_root_key is None,
    {
        TpmAttestation { endorsement_key, storage_root_key: None }
    }

    pub fn set_endorsement_key(&mut self, endorsement_key: String)
        ensures
            *final(self) == (TpmAttestation { endorsement_key, ..*old(self) }),
    {
        self.endorsement_key = endorsement_key;
    }

    pub fn with_endorsement_key(self, endorsement_key: String) -> (r: TpmAttestation)
        ensures
            r == (TpmAttestation { endorsement_key, ..self }),
    {
        TpmAttestation { endorsement_key, ..self }
    }

    pub fn endorsement_key(&self) -> (r: &String)
        ensures
            r == self.endorsement_key,
    {
        &self.endorsement_key
    }

    pub fn set_storage_root_key(&mut self, storage_root_key: String)
        ensures
            *final(self) == (TpmAttestation { storage_root_key: Some(storage_root_key), ..*old(self) }),
    {
        self.storage_root_key = Some(storage_root_key);
    }

    pub fn with_storage_root_key(self, storage_root_key: String) -> (r: TpmAttestation)
        ensures
            r == (TpmAttestation { storage_root_key: Some(storage_root_key), ..self }),
    {
        TpmAttestation { storage_root_key: Some(storage_root_key), ..self }
    }

    pub fn storage_root_key(&self) -> (r: Option<&str>)
        ensures
            match self.storage_root_key {
                Some(s) => r matches Some(x) && x@ == s@,
                None => r is None,
            },
    {
        match &self.storage_root_key {
            Some(s) => Some(s.as_str()),
            None => None,
        }
    }

    pub fn reset_storage_root_key(&mut self)
        ensures
            *final(self) == (TpmAttestation { storage_root_key: None, ..*old(self) }),
    {
        self.storage_root_key = None;
    }

}

/// TPM registration result.
#[derive(Clone, Debug, PartialEq)]
pub struct TpmRegistrationResult {
    pub authentication_key: Option<String>,
}

impl TpmRegistrationResult {
    pub fn new() -> (r: TpmRegistrationResult)
        ensures
            r.authentication_key is None,
    {
        TpmRegistrationResult { authentication_key: None }
    }

    pub fn set_authentication_key(&mut self, authentication_key: String)
        ensures
            *final(self) == (TpmRegistrationResult { authentication_key: Some(authentication_key), ..*old(self) }),
    {
        self.authentication_key = Some(authentication_key);
    }

    pub fn with_authentication_key(self, authentication_key: String) -> (r: TpmRegistrationResult)
        ensures
            r == (TpmRegistrationResult { authentication_key: Some(authentication_key), ..self }),
    {
        TpmRegistrationResult { authentication_key: Some(authentication_key), ..self }
    }

    pub fn authentication_key(&self) -> (r: Option<&str>)
        ensures
            match self.authentication_key {
                Some(s) => r matches Some(x) && x@ == s@,
                None => r is None,
            },
    {
        match &self.authentication_key {
            Some(s) => Some(s.as_str()),
            None => None,
        }
    }

    pub fn reset_authentication_key(&mut self)
        ensures
            *final(self) == (TpmRegistrationResult { authentication_key: None, ..*old(self) }),
    {
        self.authentication_key = None;
    }

}

impl Default for TpmRegistrationResult {
    fn default() -> (r: TpmRegistrationResult)
        ensures
            r.authentication_key is None,
    {
        TpmRegistrationResult::new()
    }
}

/// Registration operation status.
#[derive(Clone, Debug, PartialEq)]
pub struct RegistrationOperationStatus {
    pub operation_id: String,
    pub status: Option<String>,
    pub registration_state: Option<DeviceRegistrationResult>,
}

impl RegistrationOperationStatus {
    pub fn new(operation_id: String) -> (r: RegistrationOperationStatus)
        ensures
            r.operation_id == operation_id,
            r.status is None,
            r.registration_state is None,
    {
        RegistrationOperationStatus { operation_id, status: None, registration_state: None }
    }

    pub fn set_operation_id(&mut self, operation_id: String)
        ensures
            *final(self) == (RegistrationOperationStatus { operation_id, ..*old(self) }),
    {
        self.operation_id = operation_id;
    }

    pub fn with_operation_id(self, operation_id: String) -> (r: RegistrationOperationStatus)
        ensures
            r == (RegistrationOperationStatus { operation_id, ..self }),
    {
        RegistrationOperationStatus { operation_id, ..self }
    }

    pub fn operation_id(&self) -> (r: &String)
        ensures
            r == self.operation_id,
    {
        &self.operation_id
    }

    pub fn set_status(&mut self, status: String)
        ensures
            *final(self) == (RegistrationOperationStatus { status: Some(status), ..*old(self) }),
    {
        self.status = Some(status);
    }

    pub fn with_status(self, status: String) -> (r: RegistrationOperationStatus)
        ensures
            r == (RegistrationOperationStatus { status: Some(status), ..self }),
    {
        RegistrationOperationStatus { status: Some(status), ..self }
    }

    pub fn status(&self) -> (r: Option<&str>)
        ensures
            match self.status {
                Some(s) => r matches Some(x) && x@ == s@,
                None => r is None,
            },
    {
        match &self.status {
            Some(s) => Some(s.as_str()),
            None => None,
        }
    }

    pub fn reset_status(&mut self)
        ensures
            *final(self) == (RegistrationOperationStatus { status: None, ..*old(self) }),
    {
        self.status = None;
    }

    pub fn set_registration_state(&mut self, registration_state: DeviceRegistrationResult)
        ensures
            *final(self) == (RegistrationOperationStatus { registration_state: Some(registration_state), ..*old(self) }),
    {
        self.registration_state = Some(registration_state);
    }

    pub fn with_registration_state(self, registration_state: DeviceRegistrationResult) -> (r: RegistrationOperationStatus)
        ensures
            r == (RegistrationOperationStatus { registration_state: Some(registration_state), ..self }),
    {
        RegistrationOperationStatus { registration_state: Some(registration_state), ..self }
    }

    pub fn registration_state(&self) -> (r: Option<&DeviceRegistrationResult>)
        ensures
            match self.registration_state {
                Some(v) => r matches Some(x) && *x == v,
                None => r is None,
            },
    {
        match &self.registration_state {
            Some(v) => Some(v),
            None => None,
        }
    }

    pub fn reset_registration_state(&mut self)
        ensures
            *final(self) == (RegistrationOperationStatus { registration_state: None, ..*old(self) }),
    {
        self.registration_state = None;
    }

}

/// Device registration result.
#[derive(Clone, Debug, PartialEq)]
pub struct DeviceRegistrationResult {
    pub tpm: Option<TpmRegistrationResult>,
    pub x509: Option<String>,
    pub registration_id: String,
    pub created_date_time_utc: Option<String>,
    pub assigned_hub: Option<String>,
    pub device_id: Option<String>,
    pub status: String,
    pub error_code: Option<i32>,
    pub error_message: Option<String>,
    pub last_updated_date_time_utc: Option<String>,
    pub etag: Option<String>,
}

impl DeviceRegistrationResult {
    pub fn new(registration_id: String, status: String) -> (r: DeviceRegistrationResult)
        ensures
            r.registration_id == registration_id,
            r.status == status,
            r.tpm is None,
            r.x509 is None,
            r.created_date_time_utc is None,
            r.assigned_hub is None,
            r.device_id is None,
            r.error_code is None,
            r.error_message is None,
            r.last_updated_date_time_utc is None,
            r.etag is None,
    {
        DeviceRegistrationResult {
            tpm: None,
            x509: None,
            registration_id,
            created_date_time_utc: None,
            assigned_hub: None,
            device_id: None,
            status,
            error_code: None,
            error_message: None,
            last_updated_date_time_utc: None,
            etag: None,
        }
    }

    pub fn set_tpm(&mut self, tpm: TpmRegistrationResult)
        ensures
            *final(self) == (DeviceRegistrationResult { tpm: Some(tpm), ..*old(self) }),
    {
        self.tpm = Some(tpm);
    }

    pub fn with_tpm(self, tpm: TpmRegistrationResult) -> (r: DeviceRegistrationResult)
        ensures
            r == (DeviceRegistrationResult { tpm: Some(tpm), ..self }),
    {
        DeviceRegistrationResult { tpm: Some(tpm), ..self }
    }

    pub fn tpm(&self) -> (r: Option<&TpmRegistrationResult>)
        ensures
            match self.tpm {
                Some(v) => r matches Some(x) && *x == v,
                None => r is None,
            },
    {
        match &self.tpm {
            Some(v) => Some(v),
            None => None,
        }
    }

    pub fn reset_tpm(&mut self)
        ensures
            *final(self) == (DeviceRegistrationResult { tpm: None, ..*old(self) }),
    {
        self.tpm = None;
    }

    pub fn set_registration_id(&mut self, registration_id: String)
        ensures
            *final(self) == (DeviceRegistrationResult { registration_id, ..*old(self) }),
    {
        self.registration_id = registration_id;
    }

    pub fn with_registration_id(self, registration_id: String) -> (r: DeviceRegistrationResult)
        ensures
            r == (DeviceRegistrationResult { registration_id, ..self }),
    {
        DeviceRegistrationResult { registration_id, ..self }
    }

    pub fn registration_id(&self) -> (r: &String)
        ensures
            r == self.registration_id,
    {
        &self.registration_id
    }

    pub fn set_created_date_time_utc(&mut self, created_date_time_utc: String)
        ensures
            *final(self) == (DeviceRegistrationResult { created_date_time_utc: Some(created_date_time_utc), ..*old(self) }),
    {
        self.created_date_time_utc = Some(created_date_time_utc);
    }

    pub fn with_created_date_time_utc(self, created_date_time_utc: String) -> (r: DeviceRegistrationResult)
        ensures
            r == (DeviceRegistrationResult { created_date_time_utc: Some(created_date_time_utc), ..self }),
    {
        DeviceRegistrationResult { created_date_time_utc: Some(created_date_time_utc), ..self }
    }

    pub fn created_date_time_utc(&self) -> (r: Option<&str>)
        ensures
            match self.created_date_time_utc {
                Some(s) => r matches Some(x) && x@ == s@,
                None => r is None,
            },
    {
        match &self.created_date_time_utc {
            Some(s) => Some(s.as_str()),
            None => None,
        }
    }

    pub fn reset_created_date_time_utc(&mut self)
        ensures
            *final(self) == (DeviceRegistrationResult { created_date_time_utc: None, ..*old(self) }),
    {
        self.created_date_time_utc = None;
    }

    pub fn set_assigned_hub(&mut self, assigned_hub: String)
        ensures
            *final(self) == (DeviceRegistrationResult { assigned_hub: Some(assigned_hub), ..*old(self) }),
    {
        self.assigned_hub = Some(assigned_hub);
    }

    pub fn with_assigned_hub(self, assigned_hub: String) -> (r: DeviceRegistrationResult)
        ensures
            r == (DeviceRegistrationResult { assigned_hub: Some(assigned_hub), ..self }),
    {
        DeviceRegistrationResult { assigned_hub: Some(assigned_hub), ..self }
    }

    pub fn assigned_hub(&self) -> (r: Option<&str>)
        ensures
            match self.assigned_hub {
                Some(s) => r matches Some(x) && x@ == s@,
                None => r is None,
            },
    {
        match &self.assigned_hub {
            Some(s) => Some(s.as_str()),
            None => None,
        }
    }

    pub fn reset_assigned_hub(&mut self)
        ensures
            *final(self) == (DeviceRegistrationResult { assigned_hub: None, ..*old(self) }),
    {
        self.assigned_hub = None;
    }

    pub fn set_device_id(&mut self, device_id: String)
        ensures
            *final(self) == (DeviceRegistrationResult { device_id: Some(device_id), ..*old(self) }),
    {
        self.device_id = Some(device_id);
    }

    pub fn with_device_id(self, device_id: String) -> (r: DeviceRegistrationResult)
        ensures
            r == (DeviceRegistrationResult { device_id: Some(device_id), ..self }),
    {
        DeviceRegistrationResult { device_id: Some(device_id), ..self }
    }

    pub fn device_id(&self) -> (r: Option<&str>)
        ensures
            match self.device_id {
                Some(s) => r matches Some(x) && x@ == s@,
                None => r is None,
            },
    {
        match &self.device_id {
            Some(s) => Some(s.as_str()),
            None => None,
        }
    }

    pub fn reset_device_id(&mut self)
        ensures
            *final(self) == (DeviceRegistrationResult { device_id: None, ..*old(self) }),
    {
        self.device_id = None;
    }

    pub fn set_status(&mut self, status: String)
        ensures
            *final(self) == (DeviceRegistrationResult { status, ..*old(self) }),
    {
        self.status = status;
    }

    pub fn with_status(self, status: String) -> (r: DeviceRegistrationResult)
        ensures
            r == (DeviceRegistrationResult { status, ..self }),
    {
        DeviceRegistrationResult { status, ..self }
    }

    pub fn status(&self) -> (r: &String)
        ensures
            r == self.status,
    {
        &self.status
    }

    pub fn set_error_code(&mut self, error_code: i32)
        ensures
            *final(self) == (DeviceRegistrationResult { error_code: Some(error_code), ..*old(self) }),
    {
        self.error_code = Some(error_code);
    }

    pub fn with_error_code(self, error_code: i32) -> (r: DeviceRegistrationResult)
        ensures
            r == (DeviceRegistrationResult { error_code: Some(error_code), ..self }),
    {
        DeviceRegistrationResult { error_code: Some(error_code), ..self }
    }

    pub fn error_code(&self) -> (r: Option<i32>)
        ensures
            r == self.error_code,
    {
        self.error_code
    }

    pub fn reset_error_code(&mut self)
        ensures
            *final(self) == (DeviceRegistrationResult { error_code: None, ..*old(self) }),
    {
        self.error_code = None;
    }

    pub fn set_error_message(&mut self, error_message: String)
        ensures
            *final(self) == (DeviceRegistrationResult { error_message: Some(error_message), ..*old(self) }),
    {
        self.error_message = Some(error_message);
    }

    pub fn with_error_message(self, error_message: String) -> (r: DeviceRegistrationResult)
        ensures
            r == (DeviceRegistrationResult { error_message: Some(error_message), ..self }),
    {
        DeviceRegistrationResult { error_message: Some(error_message), ..self }
    }

    pub fn error_message(&self) -> (r: Option<&str>)
        ensures
            match self.error_message {
                Some(s) => r matches Some(x) && x@ == s@,
                None => r is None,
            },
    {
        match &self.error_message {
            Some(s) => Some(s.as_str()),
            None => None,
        }
    }

    pub fn reset_error_message(&mut self)
        ensures
            *final(self) == (DeviceRegistrationResult { error_message: None, ..*old(self) }),
    {
        self.error_message = None;
    }

    pub fn set_last_updated_date_time_utc(&mut self, last_updated_date_time_utc: String)
        ensures
            *final(self) == (DeviceRegistrationResult { last_updated_date_time_utc: Some(last_updated_date_time_utc), ..*old(self) }),
    {
        self.last_updated_date_time_utc = Some(last_updated_date_time_utc);
    }

    pub fn with_last_updated_date_time_utc(self, last_updated_date_time_utc: String) -> (r: DeviceRegistrationResult)
        ensures
            r == (DeviceRegistrationResult { last_updated_date_time_utc: Some(last_updated_date_time_utc), ..self }),
    {
        DeviceRegistrationResult { last_updated_date_time_utc: Some(last_updated_date_time_utc), ..self }
    }

    pub fn last_updated_date_time_utc(&self) -> (r: Option<&str>)
        ensures
            match self.last_updated_date_time_utc {
                Some(s) => r matches Some(x) && x@ == s@,
                None => r is None,
            },
    {
        match &self.last_updated_date_time_utc {
            Some(s) => Some(s.as_str()),
            None => None,
        }
    }

    pub fn reset_last_updated_date_time_utc(&mut self)
        ensures
            *final(self) == (DeviceRegistrationResult { last_updated_date_time_utc: None, ..*old(self) }),
    {
        self.last_updated_date_time_utc = None;
    }

    pub fn set_etag(&mut self, etag: String)
        ensures
            *final(self) == (DeviceRegistrationResult { etag: Some(etag), ..*old(self) }),
    {
        self.etag = Some(etag);
    }

    pub fn with_etag(self, etag: String) -> (r: DeviceRegistrationResult)
        ensures
            r == (DeviceRegistrationResult { etag: Some(etag), ..self }),
    {
        DeviceRegistrationResult { etag: Some(etag), ..self }
    }

    pub fn etag(&self) -> (r: Option<&str>)
        ensures
            match self.etag {
                Some(s) => r matches Some(x) && x@ == s@,
                None => r is None,
            },
    {
        match &self.etag {
            Some(s) => Some(s.as_str()),
            None => None,
        }
    }

    pub fn reset_etag(&mut self)
        ensures
            *final(self) == (DeviceRegistrationResult { etag: None, ..*old(self) }),
    {
        self.etag = None;
    }

}

} // verus!
