//! The job-execution service's API-information records, and the URLs of the
//! one-time information and login exchange built from them.  The wire
//! decoding of these records stays outside the crate; here they are plain
//! values.

use vstd::prelude::*;
use vstd::string::StrSliceExecFns;
use vstd::string::StringExecFns;

use crate::conf::Conf;

verus! {

/// Where the authentication API lives and which versions it speaks.
#[derive(Debug, Clone)]
pub struct SynoApiAuth {
    pub path: String,
    pub min_version: usize,
    pub max_version: usize,
}

/// Where the download-task API lives and which versions it speaks.
#[derive(Debug, Clone)]
pub struct SynoDsControlerTask {
    pub path: String,
    pub min_version: usize,
    pub max_version: usize,
}

/// The service's answer to the API-information query.
#[derive(Debug, Clone)]
pub struct ApiInformation {
    pub auth: SynoApiAuth,
    pub task: SynoDsControlerTask,
}

/// The envelope the information query comes back in.
#[derive(Debug, Clone)]
pub struct InfoResponse {
    pub data: ApiInformation,
    pub success: bool,
}

impl Conf {
    /// The URL of the one-time API-information query.
    pub fn info_url(&self) -> (r: String)
        ensures
            r@ == self.synology_root_api@
                + "/webapi/query.cgi?api=SYNO.API.Info&version=1&method=query&query=SYNO.API.Auth,SYNO.DownloadStation.Task"@,
    {
        let mut url = self.synology_root_api.clone();
        url.append(
            "/webapi/query.cgi?api=SYNO.API.Info&version=1&method=query&query=SYNO.API.Auth,SYNO.DownloadStation.Task",
        );
        url
    }
}

impl ApiInformation {
    /// The URL of the one-time login exchange that yields the session id.
    pub fn auth_login_url(&self, conf: &Conf) -> (r: String)
        ensures
            r@ == conf.synology_root_api@ + "/webapi/"@ + self.auth.path@
                + "?api=SYNO.API.Auth&version=6&method=login&account="@ + conf.synology_user@
                + "&passwd="@ + conf.synology_password@ + "&session=DownloadStation&format=sid"@,
    {
        let mut url = conf.synology_root_api.clone();
        url.append("/webapi/");
        url.append(self.auth.path.as_str());
        url.append("?api=SYNO.API.Auth&version=6&method=login&account=");
        url.append(conf.synology_user.as_str());
        url.append("&passwd=");
        url.append(conf.synology_password.as_str());
        url.append("&session=DownloadStation&format=sid");
        url
    }

    /// The root URL that every download-task request is sent against.
    pub fn task_root_url(&self, conf: &Conf) -> (r: String)
        ensures
            r@ == conf.synology_root_api@ + "/webapi/"@ + self.task.path@,
    {
        let mut url = conf.synology_root_api.clone();
        url.append("/webapi/");
        url.append(self.task.path.as_str());
        url
    }
}

} // verus!
