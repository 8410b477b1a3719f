//! Locations through the HTTP API: creating one (with its backdrop
//! regions) and connecting two.

use crate::api::{bad_request, parse_id, parse_optional_id, ApiError};
use crate::ids::uuid_parsed;
use crate::kinds::{parse_spatial_relationship, spatial_relationship_from, SpatialRelationship};
use crate::world::{location_type_from, parse_location_type, LocationType};
use vstd::prelude::*;

verus! {

/// The rectangle of a backdrop that a region covers.
#[derive(Clone, Copy, Debug)]
pub struct RegionBoundsRequest {
    pub x: u32,
    pub y: u32,
    pub width: u32,
    pub height: u32,
}

/// A region of a location's backdrop with a backdrop of its own.
#[derive(Clone, Debug)]
pub struct BackdropRegionRequest {
    pub name: String,
    pub bounds: RegionBoundsRequest,
    pub backdrop_asset: String,
    pub description: Option<String>,
}

/// Body of a request creating a location.
#[derive(Clone, Debug)]
pub struct CreateLocationRequest {
    pub name: String,
    pub description: String,
    pub location_type: String,
    pub parent_id: Option<String>,
    pub backdrop_asset: Option<String>,
    pub backdrop_regions: Vec<BackdropRegionRequest>,
}

/// A backdrop region as the API shows it.
#[derive(Clone, Debug)]
pub struct BackdropRegionResponse {
    pub id: String,
    pub name: String,
    pub bounds: RegionBoundsRequest,
    pub backdrop_asset: String,
    pub description: Option<String>,
}

/// A location as the API shows it.
#[derive(Clone, Debug)]
pub struct LocationResponse {
    pub id: String,
    pub world_id: String,
    pub parent_id: Option<String>,
    pub name: String,
    pub description: String,
    pub location_type: String,
    pub backdrop_asset: Option<String>,
    pub grid_map_id: Option<String>,
    pub backdrop_regions: Vec<BackdropRegionResponse>,
}

/// The location to create, read from a request.
#[derive(Clone, Debug)]
pub struct NewLocation {
    pub world_id: u128,
    pub name: String,
    /// `None` for an empty description.
    pub description: Option<String>,
    pub location_type: LocationType,
    pub parent_id: Option<u128>,
    pub backdrop_asset: Option<String>,
    pub backdrop_regions: Vec<BackdropRegionRequest>,
}

/// An empty text is no text.
pub open spec fn non_empty(s: String) -> Option<String> {
    if s@.len() == 0 {
        None
    } else {
        Some(s)
    }
}

pub(crate) fn non_empty_exec(s: String) -> (r: Option<String>)
    ensures
        r == non_empty(s),
{
    if s.unicode_len() == 0 {
        None
    } else {
        Some(s)
    }
}

/// Reads the location a creation request asks for: the world ID and a
/// parent ID must be UUIDs ("Invalid world ID", "Invalid parent ID"); an
/// unknown location type reads as `Interior`.
pub fn new_location(world_id: &str, req: CreateLocationRequest) -> (r: Result<NewLocation, ApiError>)
    ensures
        match uuid_parsed(world_id@) {
            None => r matches Err(e) && e.status == bad_request() && e.message@
                == "Invalid world ID"@,
            Some(w) => if req.parent_id matches Some(p) && uuid_parsed(p@) is None {
                r matches Err(e) && e.status == bad_request() && e.message@ == "Invalid parent ID"@
            } else {
                r matches Ok(n) && {
                    &&& n.world_id == w
                    &&& n.name == req.name
                    &&& n.description == non_empty(req.description)
                    &&& n.location_type == location_type_from(req.location_type@)
                    &&& n.parent_id == (match req.parent_id {
                        Some(p) => uuid_parsed(p@),
                        None => None,
                    })
                    &&& n.backdrop_asset == req.backdrop_asset
                    &&& n.backdrop_regions == req.backdrop_regions
                }
            },
        },
{
    let w = match parse_id(world_id, "Invalid world ID") {
        Ok(w) => w,
        Err(e) => {
            return Err(e);
        },
    };
    let location_type = parse_location_type(req.location_type.as_str());
    let parent_id = match parse_optional_id(&req.parent_id, "Invalid parent ID") {
        Ok(p) => p,
        Err(e) => {
            return Err(e);
        },
    };
    let CreateLocationRequest {
        name,
        description,
        location_type: _,
        parent_id: _,
        backdrop_asset,
        backdrop_regions,
    } = req;
    Ok(
        NewLocation {
            world_id: w,
            name,
            description: non_empty_exec(description),
            location_type,
            parent_id,
            backdrop_asset,
            backdrop_regions,
        },
    )
}

/// Changes to a location, as the location service takes them; what is
/// absent stays. `parent_id` is `Some(None)` to take the parent away.
#[derive(Clone, Debug)]
pub struct LocationChanges {
    pub name: Option<String>,
    pub description: Option<String>,
    pub location_type: Option<LocationType>,
    pub parent_id: Option<Option<u128>>,
    pub backdrop_asset: Option<String>,
    pub grid_map_id: Option<u128>,
}

/// The location and the changes a change request asks for: the ID and a
/// parent ID must be UUIDs ("Invalid location ID", then "Invalid parent
/// ID"). The name, type and parent are always set (no parent where none is
/// given), the description where it is not empty, the backdrop as given;
/// the grid map and the backdrop regions stay.
pub fn location_changes(id: &str, req: CreateLocationRequest) -> (r: Result<
    (u128, LocationChanges),
    ApiError,
>)
    ensures
        match uuid_parsed(id@) {
            None => r matches Err(e) && e.status == bad_request() && e.message@
                == "Invalid location ID"@,
            Some(l) => if req.parent_id matches Some(p) && uuid_parsed(p@) is None {
                r matches Err(e) && e.status == bad_request() && e.message@ == "Invalid parent ID"@
            } else {
                r matches Ok((v, c)) && {
                    &&& v == l
                    &&& c.name == Some(req.name)
                    &&& c.description == non_empty(req.description)
                    &&& c.location_type == Some(location_type_from(req.location_type@))
                    &&& c.parent_id == Some(
                        match req.parent_id {
                            Some(p) => uuid_parsed(p@),
                            None => None,
                        },
                    )
                    &&& c.backdrop_asset == req.backdrop_asset
                    &&& c.grid_map_id is None
                }
            },
        },
{
    let l = match parse_id(id, "Invalid location ID") {
        Ok(v) => v,
        Err(e) => {
            return Err(e);
        },
    };
    let parent_id = match parse_optional_id(&req.parent_id, "Invalid parent ID") {
        Ok(p) => p,
        Err(e) => {
            return Err(e);
        },
    };
    let location_type = parse_location_type(req.location_type.as_str());
    Ok(
        (
            l,
            LocationChanges {
                name: Some(req.name),
                description: non_empty_exec(req.description),
                location_type: Some(location_type),
                parent_id: Some(parent_id),
                backdrop_asset: req.backdrop_asset,
                grid_map_id: None,
            },
        ),
    )
}

/// Body of a request connecting two locations.
#[derive(Clone, Debug)]
pub struct CreateConnectionRequest {
    pub from_location_id: String,
    pub to_location_id: String,
    pub connection_type: Option<String>,
    pub description: String,
    pub bidirectional: bool,
    pub travel_time: Option<u32>,
}

/// Whether a connection goes both ways when the request does not say.
pub fn default_bidirectional() -> (b: bool)
    ensures
        b,
{
    true
}

/// A connection as the API shows it.
#[derive(Clone, Debug)]
pub struct ConnectionResponse {
    pub from_location_id: String,
    pub to_location_id: String,
    pub connection_type: String,
    pub description: String,
    pub bidirectional: bool,
    pub travel_time: Option<u32>,
}

/// The connection to create, read from a request.
#[derive(Clone, Debug)]
pub struct NewConnection {
    pub from_location: u128,
    pub to_location: u128,
    pub connection_type: SpatialRelationship,
    pub description: Option<String>,
    pub bidirectional: bool,
    pub travel_time: Option<u32>,
}

/// Reads the connection a request asks for: both IDs must be UUIDs
/// ("Invalid from location ID", "Invalid to location ID"); without a type
/// the locations simply connect.
pub fn new_connection(req: CreateConnectionRequest) -> (r: Result<NewConnection, ApiError>)
    ensures
        match (uuid_parsed(req.from_location_id@), uuid_parsed(req.to_location_id@)) {
            (None, _) => r matches Err(e) && e.status == bad_request() && e.message@
                == "Invalid from location ID"@,
            (Some(_), None) => r matches Err(e) && e.status == bad_request() && e.message@
                == "Invalid to location ID"@,
            (Some(a), Some(b)) => r matches Ok(c) && {
                &&& c.from_location == a
                &&& c.to_location == b
                &&& c.connection_type == (match req.connection_type {
                    Some(t) => spatial_relationship_from(t@),
                    None => SpatialRelationship::ConnectsTo,
                })
                &&& c.description == non_empty(req.description)
                &&& c.bidirectional == req.bidirectional
                &&& c.travel_time == req.travel_time
            },
        },
{
    let from = match parse_id(req.from_location_id.as_str(), "Invalid from location ID") {
        Ok(v) => v,
        Err(e) => {
            return Err(e);
        },
    };
    let to = match parse_id(req.to_location_id.as_str(), "Invalid to location ID") {
        Ok(v) => v,
        Err(e) => {
            return Err(e);
        },
    };
    let connection_type = match &req.connection_type {
        Some(t) => parse_spatial_relationship(t.as_str()),
        None => SpatialRelationship::ConnectsTo,
    };
    Ok(
        NewConnection {
            from_location: from,
            to_location: to,
            connection_type,
            description: non_empty_exec(req.description),
            bidirectional: req.bidirectional,
            travel_time: req.travel_time,
        },
    )
}

} // verus!
