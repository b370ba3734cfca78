//! The desktop portal's permission requests: the prompt it runs, and the
//! answer it gives.
use vstd::prelude::*;

verus! {

/// The portal backend.
pub struct ErmetePortal;

/// The resources that applications ask for.
#[derive(Debug, Clone, Copy, PartialEq, Eq)]
pub enum PortalResource {
    ScreenCast,
    Camera,
    Location,
    Microphone,
}

pub open spec fn resource_name_of(r: PortalResource) -> Seq<char> {
    match r {
        PortalResource::ScreenCast => "ScreenCast"@,
        PortalResource::Camera => "Camera"@,
        PortalResource::Location => "Location"@,
        PortalResource::Microphone => "Microphone"@,
    }
}

impl ErmetePortal {
    /// The name under which a resource is prompted for.
    pub fn resource_name(resource: PortalResource) -> (r: String)
        ensures
            r@ == resource_name_of(resource),
    {
        match resource {
            PortalResource::ScreenCast => "ScreenCast".to_string(),
            PortalResource::Camera => "Camera".to_string(),
            PortalResource::Location => "Location".to_string(),
            PortalResource::Microphone => "Microphone".to_string(),
        }
    }

    /// The argument given to the privacy prompt: `resource:app_id`.
    pub fn prompt_argument(resource: &str, app_id: &str) -> (r: String)
        ensures
            r@ == resource@ + ":"@ + app_id@,
    {
        let mut r = resource.to_string();
        r.append(":");
        r.append(app_id);
        r
    }

    /// Whether access is granted: the prompt ran and exited successfully
    /// (`None` when it could not be launched, which denies).
    pub fn is_granted(prompt_succeeded: Option<bool>) -> (r: bool)
        ensures
            r == (prompt_succeeded == Some(true)),
    {
        prompt_succeeded == Some(true)
    }

    /// The portal response code: 0 when granted, 1 (cancelled) otherwise.
    pub fn response_code(granted: bool) -> (r: u32)
        ensures
            granted ==> r == 0,
            !granted ==> r == 1,
    {
        if granted {
            0
        } else {
            1
        }
    }
}

} // verus!
