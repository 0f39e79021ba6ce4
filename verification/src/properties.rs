//! Property listings: creation defaults, updates, view counts and image links.
use vstd::prelude::*;
use crate::documents::document_view_url;
use crate::ids::uuid_text;
use crate::money::Amount;
use crate::text::owned;

verus! {

/// A property as stored. `features` is the JSON text of its feature list.
pub struct Property {
    pub id: u128,
    pub tenant_id: u128,
    pub title: String,
    pub description: Option<String>,
    pub property_type: String,
    pub operation_type: String,
    pub price: Amount,
    pub currency: Option<String>,
    pub address: Option<String>,
    pub city: Option<String>,
    pub province: Option<String>,
    pub square_meters: Option<Amount>,
    pub bedrooms: Option<i32>,
    pub bathrooms: Option<i32>,
    pub status: Option<String>,
    pub features: Option<String>,
}

/// An owner of a property and its share.
pub struct PropertyOwnerDto {
    pub client_id: u128,
    pub percentage: Option<Amount>,
}

/// A request to create or replace a property.
pub struct CreatePropertyDto {
    pub title: String,
    pub description: Option<String>,
    pub property_type: String,
    pub operation_type: String,
    pub price: Amount,
    pub currency: Option<String>,
    pub address: Option<String>,
    pub city: Option<String>,
    pub province: Option<String>,
    pub square_meters: Option<Amount>,
    pub bedrooms: Option<i32>,
    pub bathrooms: Option<i32>,
    pub status: Option<String>,
    pub features: Option<String>,
    pub owners: Option<Vec<PropertyOwnerDto>>,
}

/// A property as the API returns it.
pub struct PropertyResponseDto {
    pub id: u128,
    pub title: String,
    pub description: Option<String>,
    pub property_type: String,
    pub operation_type: String,
    pub price: Amount,
    pub currency: Option<String>,
    pub address: Option<String>,
    pub city: Option<String>,
    pub province: Option<String>,
    pub square_meters: Option<Amount>,
    pub bedrooms: Option<i32>,
    pub bathrooms: Option<i32>,
    pub status: Option<String>,
    pub features: Option<String>,
    pub views: Option<i64>,
    pub images: Option<Vec<String>>,
    pub owners: Option<Vec<PropertyOwnerDto>>,
}

/// Status of a property created without one.
pub open spec fn default_property_status() -> Seq<char> {
    "Disponible"@
}

/// The property that a creation request describes, for tenant `tenant_id` under id `id`.
pub fn new_property(id: u128, tenant_id: u128, payload: CreatePropertyDto) -> (r: Property)
    ensures
        r.id == id,
        r.tenant_id == tenant_id,
        r.title == payload.title,
        r.description == payload.description,
        r.property_type == payload.property_type,
        r.operation_type == payload.operation_type,
        r.price == payload.price,
        r.currency == payload.currency,
        r.address == payload.address,
        r.city == payload.city,
        r.province == payload.province,
        r.square_meters == payload.square_meters,
        r.bedrooms == payload.bedrooms,
        r.bathrooms == payload.bathrooms,
        match payload.status {
            Some(s) => r.status == Some(s),
            None => r.status matches Some(d) && d@ == default_property_status(),
        },
        r.features == payload.features,
{
    let status = match payload.status {
        Some(s) => Some(s),
        None => Some(owned("Disponible")),
    };
    Property {
        id,
        tenant_id,
        title: payload.title,
        description: payload.description,
        property_type: payload.property_type,
        operation_type: payload.operation_type,
        price: payload.price,
        currency: payload.currency,
        address: payload.address,
        city: payload.city,
        province: payload.province,
        square_meters: payload.square_meters,
        bedrooms: payload.bedrooms,
        bathrooms: payload.bathrooms,
        status,
        features: payload.features,
    }
}

/// The property after an update: every descriptive field is replaced, the status and features
/// only when the request gives them.
pub fn apply_property_update(current: Property, payload: CreatePropertyDto) -> (r: Property)
    ensures
        r.id == current.id,
        r.tenant_id == current.tenant_id,
        r.title == payload.title,
        r.description == payload.description,
        r.property_type == payload.property_type,
        r.operation_type == payload.operation_type,
        r.price == payload.price,
        r.currency == payload.currency,
        r.address == payload.address,
        r.city == payload.city,
        r.province == payload.province,
        r.square_meters == payload.square_meters,
        r.bedrooms == payload.bedrooms,
        r.bathrooms == payload.bathrooms,
        r.status == (match payload.status { Some(s) => Some(s), None => current.status }),
        r.features == (match payload.features { Some(f) => Some(f), None => current.features }),
{
    Property {
        id: current.id,
        tenant_id: current.tenant_id,
        title: payload.title,
        description: payload.description,
        property_type: payload.property_type,
        operation_type: payload.operation_type,
        price: payload.price,
        currency: payload.currency,
        address: payload.address,
        city: payload.city,
        province: payload.province,
        square_meters: payload.square_meters,
        bedrooms: payload.bedrooms,
        bathrooms: payload.bathrooms,
        status: match payload.status {
            Some(s) => Some(s),
            None => current.status,
        },
        features: match payload.features {
            Some(f) => Some(f),
            None => current.features,
        },
    }
}

impl PropertyResponseDto {
    /// The API form of a stored property, before views, images and owners are filled in.
    pub fn from_property(p: Property) -> (r: PropertyResponseDto)
        ensures
            r.id == p.id,
            r.title == p.title,
            r.description == p.description,
            r.property_type == p.property_type,
            r.operation_type == p.operation_type,
            r.price == p.price,
            r.currency == p.currency,
            r.address == p.address,
            r.city == p.city,
            r.province == p.province,
            r.square_meters == p.square_meters,
            r.bedrooms == p.bedrooms,
            r.bathrooms == p.bathrooms,
            r.status == p.status,
            r.features == p.features,
            r.views is None,
            r.images is None,
            r.owners is None,
    {
        PropertyResponseDto {
            id: p.id,
            title: p.title,
            description: p.description,
            property_type: p.property_type,
            operation_type: p.operation_type,
            price: p.price,
            currency: p.currency,
            address: p.address,
            city: p.city,
            province: p.province,
            square_meters: p.square_meters,
            bedrooms: p.bedrooms,
            bathrooms: p.bathrooms,
            status: p.status,
            features: p.features,
            views: None,
            images: None,
            owners: None,
        }
    }
}

impl From<Property> for PropertyResponseDto {
    fn from(p: Property) -> (r: Self) {
        PropertyResponseDto::from_property(p)
    }
}

impl vstd::std_specs::convert::FromSpecImpl<Property> for PropertyResponseDto {
    open spec fn obeys_from_spec() -> bool {
        true
    }

    /// The stored fields carried over; views, images and owners not yet filled in.
    open spec fn from_spec(p: Property) -> PropertyResponseDto {
        PropertyResponseDto {
            id: p.id,
            title: p.title,
            description: p.description,
            property_type: p.property_type,
            operation_type: p.operation_type,
            price: p.price,
            currency: p.currency,
            address: p.address,
            city: p.city,
            province: p.province,
            square_meters: p.square_meters,
            bedrooms: p.bedrooms,
            bathrooms: p.bathrooms,
            status: p.status,
            features: p.features,
            views: None,
            images: None,
            owners: None,
        }
    }
}

/// Share recorded for an owner given without one: the whole property (100).
pub fn owner_share(percentage: Option<Amount>) -> (r: Amount)
    ensures
        r == (match percentage { Some(p) => p, None => Amount { mantissa: 100, scale: 0 } }),
{
    match percentage {
        Some(p) => p,
        None => Amount::whole(100),
    }
}

/// View counts of a page of listed properties, from a batch lookup that may have failed
/// (`None`): on success every property gets its count, zero when it has none.
pub fn listing_views(count: usize, fetched: &Option<Vec<Option<i64>>>) -> (r: Vec<Option<i64>>)
    ensures
        r.len() == count,
        forall|i: int| 0 <= i < count ==> #[trigger] r[i] == (match fetched {
            None => None,
            Some(vs) => if i < vs.len() {
                match vs[i] { Some(n) => Some(n), None => Some(0i64) }
            } else {
                Some(0i64)
            },
        }),
{
    let mut r: Vec<Option<i64>> = Vec::new();
    let mut i: usize = 0;
    while i < count
        invariant
            i <= count,
            r.len() == i,
            forall|j: int| 0 <= j < i ==> #[trigger] r[j] == (match fetched {
                None => None,
                Some(vs) => if j < vs.len() {
                    match vs[j] { Some(n) => Some(n), None => Some(0i64) }
                } else {
                    Some(0i64)
                },
            }),
        decreases count - i,
    {
        let v = match fetched {
            None => None,
            Some(vs) => {
                if i < vs.len() {
                    match vs[i] {
                        Some(n) => Some(n),
                        None => Some(0i64),
                    }
                } else {
                    Some(0i64)
                }
            },
        };
        r.push(v);
        i += 1;
    }
    r
}

/// View count of a single property: the stored count, zero when there is none.
pub fn property_views(stored: Option<i64>) -> (r: Option<i64>)
    ensures
        r == (match stored { Some(n) => Some(n), None => Some(0i64) }),
{
    match stored {
        Some(n) => Some(n),
        None => Some(0i64),
    }
}

/// An image document of a property: the document id and the property it belongs to.
#[derive(Clone, Copy)]
pub struct ImageRow {
    pub document_id: u128,
    pub entity_id: u128,
}

/// Ids of the image documents in `rows` that belong to property `id`, in row order.
pub open spec fn images_of(rows: Seq<ImageRow>, id: u128) -> Seq<u128>
    decreases rows.len(),
{
    if rows.len() == 0 {
        seq![]
    } else {
        let rest = images_of(rows.drop_last(), id);
        if rows.last().entity_id == id {
            rest.push(rows.last().document_id)
        } else {
            rest
        }
    }
}

/// View link of image document `doc` under API base `api_url`.
pub open spec fn image_link(api_url: Seq<char>, doc: u128) -> Seq<char> {
    api_url + "/api/documents/"@ + uuid_text(doc) + "/view"@
}

/// `links` are the view links of the documents `docs`, in order.
pub open spec fn are_image_links(api_url: Seq<char>, docs: Seq<u128>, links: Seq<String>) -> bool {
    &&& links.len() == docs.len()
    &&& forall|k: int| 0 <= k < links.len() ==> #[trigger] links[k]@ == image_link(api_url, docs[k])
}

/// `r` lists the view links of `docs`, and is `None` when there are none.
pub open spec fn is_image_list(api_url: Seq<char>, docs: Seq<u128>, r: Option<Vec<String>>) -> bool {
    match r {
        None => docs.len() == 0,
        Some(links) => docs.len() > 0 && are_image_links(api_url, docs, links@),
    }
}

/// Links to the images of property `id`: one per matching row, in row order.
pub fn property_image_links(api_url: &str, id: u128, rows: &Vec<ImageRow>) -> (r: Option<Vec<String>>)
    ensures
        is_image_list(api_url@, images_of(rows@, id), r),
{
    let mut links: Vec<String> = Vec::new();
    let mut i: usize = 0;
    while i < rows.len()
        invariant
            i <= rows.len(),
            are_image_links(api_url@, images_of(rows@.take(i as int), id), links@),
        decreases rows.len() - i,
    {
        assert(rows@.take(i + 1).drop_last() =~= rows@.take(i as int));
        if rows[i].entity_id == id {
            let link = document_view_url(api_url, rows[i].document_id);
            links.push(link);
        }
        i += 1;
    }
    assert(rows@.take(rows.len() as int) =~= rows@);
    if links.len() == 0 {
        None
    } else {
        Some(links)
    }
}

/// Image links of every property of a listing page, in page order.
pub fn listing_image_links(api_url: &str, ids: &Vec<u128>, rows: &Vec<ImageRow>) -> (r: Vec<Option<Vec<String>>>)
    ensures
        r.len() == ids.len(),
        forall|k: int| 0 <= k < r.len() ==> is_image_list(api_url@, images_of(rows@, ids[k]), #[trigger] r[k]),
{
    let mut r: Vec<Option<Vec<String>>> = Vec::new();
    let mut i: usize = 0;
    while i < ids.len()
        invariant
            i <= ids.len(),
            r.len() == i,
            forall|k: int| 0 <= k < i ==> is_image_list(api_url@, images_of(rows@, ids[k]), #[trigger] r[k]),
        decreases ids.len() - i,
    {
        let links = property_image_links(api_url, ids[i], rows);
        r.push(links);
        i += 1;
    }
    r
}

} // verus!
