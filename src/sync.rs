//! The synchronisation operations, from the stored configuration to the
//! requests to send and the results to report.
use vstd::prelude::*;
use crate::cipher::{revealable, revealed};
use crate::config::AppConfig;
use crate::error::SyncError;
use crate::webdav::{
    downloaded_text, empty_document, empty_document_text, folder_request,
    get_request, is_download, is_folder_creation, is_upload, put_request, DavRequest, HttpOutcome,
};

verus! {

/// Both stored credentials of the configured server can be revealed.
pub open spec fn credentials_revealable(cfg: AppConfig, key: Seq<u8>) -> bool {
    cfg.webdav is Some && revealable(key, cfg.webdav->0.username@) && revealable(
        key,
        cfg.webdav->0.password@,
    )
}

/// The local document as read from disk, or the empty document when there is
/// no file yet.
pub fn local_document(contents: Option<String>) -> (r: String)
    ensures
        contents is Some ==> r == contents->0,
        contents is None ==> r@ == empty_document_text(),
{
    match contents {
        Some(text) => text,
        None => empty_document(),
    }
}

/// The requests of an upload, in order: create the data folder (its failure,
/// such as the folder existing already, is ignored), then store the document.
/// Only the second one decides the upload's result.
pub fn plan_upload(cfg: &AppConfig, key: &[u8], document: String) -> (r: Result<
    (DavRequest, DavRequest),
    SyncError,
>)
    requires
        key@.len() > 0,
    ensures
        cfg.webdav is None ==> r == Err::<(DavRequest, DavRequest), SyncError>(SyncError::NotConfigured),
        cfg.webdav is Some ==> (r is Ok <==> credentials_revealable(*cfg, key@)),
        cfg.webdav is Some && r is Err ==> r == Err::<(DavRequest, DavRequest), SyncError>(SyncError::Decode),
        r is Ok ==> {
            let wc = cfg.webdav->0;
            let user = revealed(key@, wc.username@);
            let pass = revealed(key@, wc.password@);
            &&& is_folder_creation(r->Ok_0.0, wc.server@, user, pass)
            &&& is_upload(r->Ok_0.1, wc.server@, user, pass, document)
        },
{
    let creds = match cfg.credentials(key) {
        Ok(c) => c,
        Err(e) => return Err(e),
    };
    let folder = folder_request(&creds);
    let put = put_request(&creds, document);
    Ok((folder, put))
}

/// The request of a download.
pub fn plan_download(cfg: &AppConfig, key: &[u8]) -> (r: Result<DavRequest, SyncError>)
    requires
        key@.len() > 0,
    ensures
        cfg.webdav is None ==> r == Err::<DavRequest, SyncError>(SyncError::NotConfigured),
        cfg.webdav is Some ==> (r is Ok <==> credentials_revealable(*cfg, key@)),
        cfg.webdav is Some && r is Err ==> r == Err::<DavRequest, SyncError>(SyncError::Decode),
        r is Ok ==> {
            let wc = cfg.webdav->0;
            is_download(r->Ok_0, wc.server@, revealed(key@, wc.username@), revealed(key@, wc.password@))
        },
{
    let creds = match cfg.credentials(key) {
        Ok(c) => c,
        Err(e) => return Err(e),
    };
    Ok(get_request(&creds))
}

/// A download reads the very object that an upload with the same settings
/// wrote: where the server hands back what it stored, the downloaded document
/// is the uploaded one, unchanged.
pub proof fn lemma_download_reads_upload(
    upload: DavRequest,
    download: DavRequest,
    server: Seq<char>,
    username: Seq<char>,
    password: Seq<char>,
    document: String,
)
    requires
        is_upload(upload, server, username, password, document),
        is_download(download, server, username, password),
    ensures
        upload.url@ == download.url@,
        upload.authorization@ == download.authorization@,
        upload.body == Some(document),
        downloaded_text(HttpOutcome::Success(document)) == Some(document@),
{
}

} // verus!
