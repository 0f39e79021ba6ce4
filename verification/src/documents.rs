//! Documents kept in object storage: where they are stored and how signed links are formed.
use vstd::prelude::*;
use crate::ids::{uuid_text, uuid_to_text};
use crate::text::{has_prefix, owned, starts_with};

verus! {

/// A signed link to download a document.
pub struct DownloadUrlResponse {
    pub url: String,
}

/// Object-storage path of an uploaded document: `tenant/entity_type/entity_id/file_name`.
pub open spec fn storage_path_spec(tenant_id: u128, entity_type: Seq<char>, entity_id: u128, file_name: Seq<char>) -> Seq<char> {
    uuid_text(tenant_id) + "/"@ + entity_type + "/"@ + uuid_text(entity_id) + "/"@ + file_name
}

/// Where an uploaded document is stored.
pub fn storage_path(tenant_id: u128, entity_type: &str, entity_id: u128, file_name: &str) -> (r: String)
    ensures
        r@ == storage_path_spec(tenant_id, entity_type@, entity_id, file_name@),
{
    let mut r = uuid_to_text(tenant_id);
    r.append("/");
    r.append(entity_type);
    r.append("/");
    let e = uuid_to_text(entity_id);
    r.append(e.as_str());
    r.append("/");
    r.append(file_name);
    r
}

/// The object storage (Supabase) that documents are kept in: its URL, service key and bucket.
pub struct SupabaseStorage {
    pub supabase_url: String,
    pub service_role_key: String,
    pub bucket_name: String,
}

/// A signed URL as returned to clients: relative answers (starting with `/`) are made absolute
/// under `{supabase_url}/storage/v1`.
pub open spec fn absolute_signed_url(supabase_url: Seq<char>, signed: Seq<char>) -> Seq<char> {
    if has_prefix(signed, "/"@) {
        supabase_url + "/storage/v1"@ + signed
    } else {
        signed
    }
}

impl SupabaseStorage {
    /// The storage as configured: empty URL and key when unset, bucket `certificados` by default.
    pub fn new(url: Option<String>, key: Option<String>, bucket: Option<String>) -> (r: SupabaseStorage)
        ensures
            r.supabase_url@ == (match url { Some(u) => u@, None => Seq::<char>::empty() }),
            r.service_role_key@ == (match key { Some(k) => k@, None => Seq::<char>::empty() }),
            r.bucket_name@ == (match bucket { Some(b) => b@, None => "certificados"@ }),
    {
        SupabaseStorage {
            supabase_url: match url {
                Some(u) => u,
                None => String::new(),
            },
            service_role_key: match key {
                Some(k) => k,
                None => String::new(),
            },
            bucket_name: match bucket {
                Some(b) => b,
                None => owned("certificados"),
            },
        }
    }

    /// Endpoint that signs an upload to `path`.
    pub fn upload_sign_endpoint(&self, path: &str) -> (r: String)
        ensures
            r@ == self.supabase_url@ + "/storage/v1/object/upload/sign/"@ + self.bucket_name@
                + "/"@ + path@,
    {
        let mut r = owned(self.supabase_url.as_str());
        r.append("/storage/v1/object/upload/sign/");
        r.append(self.bucket_name.as_str());
        r.append("/");
        r.append(path);
        r
    }

    /// Endpoint that signs a download of `path`.
    pub fn download_sign_endpoint(&self, path: &str) -> (r: String)
        ensures
            r@ == self.supabase_url@ + "/storage/v1/object/sign/"@ + self.bucket_name@ + "/"@
                + path@,
    {
        let mut r = owned(self.supabase_url.as_str());
        r.append("/storage/v1/object/sign/");
        r.append(self.bucket_name.as_str());
        r.append("/");
        r.append(path);
        r
    }

    /// The signed download URL of a storage answer (its `signedURL` field), or the error when it
    /// carries none.
    pub fn signed_url(&self, signed: Option<String>) -> (r: Result<String, String>)
        ensures
            match signed {
                Some(s) => r matches Ok(u) && u@ == absolute_signed_url(self.supabase_url@, s@),
                None => r matches Err(e) && e@ == "No signed URL in response"@,
            },
    {
        match signed {
            Some(s) => {
                if starts_with(s.as_str(), "/") {
                    let mut u = owned(self.supabase_url.as_str());
                    u.append("/storage/v1");
                    u.append(s.as_str());
                    Ok(u)
                } else {
                    Ok(s)
                }
            },
            None => Err(owned("No signed URL in response")),
        }
    }

    /// The signed upload URL of a storage answer: its `url` field, else its `signedURL` field.
    pub fn signed_upload_url(&self, url: Option<String>, signed_url_field: Option<String>) -> (r: Result<String, String>)
        ensures
            match (url, signed_url_field) {
                (Some(s), _) => r matches Ok(u) && u@ == absolute_signed_url(self.supabase_url@, s@),
                (None, Some(s)) => r matches Ok(u) && u@ == absolute_signed_url(self.supabase_url@, s@),
                (None, None) => r matches Err(e) && e@ == "No signed URL in response"@,
            },
    {
        let chosen = match url {
            Some(u) => Some(u),
            None => signed_url_field,
        };
        self.signed_url(chosen)
    }
}

/// A request for an upload link: the entity the document belongs to and the file's name, size
/// and type.
pub struct CreateUploadUrlDto {
    pub file_name: String,
    pub file_size: i64,
    pub mime_type: String,
    pub entity_type: String,
    pub entity_id: u128,
}

impl CreateUploadUrlDto {
    /// Where the document of this request is stored for tenant `tenant_id`.
    pub fn storage_path(&self, tenant_id: u128) -> (r: String)
        ensures
            r@ == storage_path_spec(tenant_id, self.entity_type@, self.entity_id, self.file_name@),
    {
        storage_path(tenant_id, self.entity_type.as_str(), self.entity_id, self.file_name.as_str())
    }
}

/// An upload link, the document it creates and where the file goes.
pub struct UploadUrlResponse {
    pub document_id: u128,
    pub upload_url: String,
    pub storage_path: String,
}

/// Link through which the API serves a stored document.
pub fn document_view_url(api_url: &str, document_id: u128) -> (r: String)
    ensures
        r@ == api_url@ + "/api/documents/"@ + uuid_text(document_id) + "/view"@,
{
    let mut r = owned(api_url);
    r.append("/api/documents/");
    let id = uuid_to_text(document_id);
    r.append(id.as_str());
    r.append("/view");
    r
}

/// Seconds that a signed download link stays valid.
pub const DOWNLOAD_LINK_SECONDS: i32 = 3600;

} // verus!
