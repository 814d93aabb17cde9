//! Schema administration: from the admin requests a broker receives to the
//! requests it forwards to the placement center.

use vstd::prelude::*;

verus! {

/// Errors of the broker's request handling.
#[derive(Debug)]
pub enum MqttBrokerError {
    /// The schema type named in a request is not one the broker knows.
    InvalidSchemaType(String),
    /// A call to another service failed; the text says why.
    CommonError(String),
}

/// The kinds of schema the broker stores.
#[derive(Clone, Copy, Debug, PartialEq, Eq, Structural)]
pub enum SchemaType {
    JSON,
    AVRO,
    PROTOBUF,
}

/// What a schema type named in a request denotes: none for an unknown name;
/// the empty name stands for JSON.
pub open spec fn schema_type_of(name: Seq<char>) -> Option<SchemaType> {
    if name == ""@ || name == "json"@ {
        Some(SchemaType::JSON)
    } else if name == "avro"@ {
        Some(SchemaType::AVRO)
    } else if name == "protobuf"@ {
        Some(SchemaType::PROTOBUF)
    } else {
        None
    }
}

/// The names a request may give a schema type: the empty name and `json`
/// stand for JSON, `avro` for AVRO and `protobuf` for PROTOBUF; names are
/// matched exactly, so `JSON` is refused.
pub proof fn law_schema_type_names()
    ensures
        schema_type_of(""@) == Some(SchemaType::JSON),
        schema_type_of("json"@) == Some(SchemaType::JSON),
        schema_type_of("avro"@) == Some(SchemaType::AVRO),
        schema_type_of("protobuf"@) == Some(SchemaType::PROTOBUF),
        schema_type_of("JSON"@) is None,
{
    reveal_strlit("");
    reveal_strlit("json");
    reveal_strlit("avro");
    reveal_strlit("protobuf");
    reveal_strlit("JSON");
    assert("avro"@[0] != "json"@[0]);
    assert("protobuf"@.len() != "json"@.len());
    assert("protobuf"@.len() != "avro"@.len());
    assert("JSON"@[0] != "json"@[0]);
    assert("JSON"@[0] != "avro"@[0]);
    assert("JSON"@.len() != ""@.len());
    assert("JSON"@.len() != "protobuf"@.len());
    assert("JSON"@ != "json"@);
    assert("JSON"@ != "avro"@);
}

/// A name that stands for a schema type is one of the four accepted names.
pub proof fn law_only_known_names_accepted(name: Seq<char>)
    ensures
        schema_type_of(name) is Some ==> (name == ""@ || name == "json"@ || name == "avro"@ || name == "protobuf"@),
{
}

/// Reads the schema type named in a request.
pub fn parse_schema_type(name: &String) -> (result: Result<SchemaType, MqttBrokerError>)
    ensures
        match result {
            Ok(t) => schema_type_of(name@) == Some(t),
            Err(MqttBrokerError::InvalidSchemaType(n)) => schema_type_of(name@) is None && n@ == name@,
            Err(_) => false,
        },
{
    proof {
        reveal_strlit("");
        reveal_strlit("json");
        reveal_strlit("avro");
        reveal_strlit("protobuf");
    }
    if *name == "".to_owned() || *name == "json".to_owned() {
        Ok(SchemaType::JSON)
    } else if *name == "avro".to_owned() {
        Ok(SchemaType::AVRO)
    } else if *name == "protobuf".to_owned() {
        Ok(SchemaType::PROTOBUF)
    } else {
        Err(MqttBrokerError::InvalidSchemaType(name.clone()))
    }
}

/// A schema as the placement center stores it.
#[derive(Clone, Debug, PartialEq, Eq)]
pub struct SchemaData {
    pub cluster_name: String,
    pub name: String,
    pub schema_type: SchemaType,
    pub schema: String,
    pub desc: String,
}

/// Admin request: list the schemas of a name.
#[derive(Clone, Debug, PartialEq, Eq)]
pub struct MqttListSchemaRequest {
    pub schema_name: String,
}

/// Admin request: create a schema.
#[derive(Clone, Debug, PartialEq, Eq)]
pub struct MqttCreateSchemaRequest {
    pub schema_name: String,
    pub schema_type: String,
    pub schema: String,
    pub desc: String,
}

/// Admin request: replace a schema.
#[derive(Clone, Debug, PartialEq, Eq)]
pub struct MqttUpdateSchemaRequest {
    pub schema_name: String,
    pub schema_type: String,
    pub schema: String,
    pub desc: String,
}

/// Admin request: delete a schema.
#[derive(Clone, Debug, PartialEq, Eq)]
pub struct MqttDeleteSchemaRequest {
    pub schema_name: String,
}

/// Admin request: list the bindings of a schema to resources.
#[derive(Clone, Debug, PartialEq, Eq)]
pub struct MqttListBindSchemaRequest {
    pub schema_name: String,
    pub resource_name: String,
}

/// Admin request: bind a schema to a resource.
#[derive(Clone, Debug, PartialEq, Eq)]
pub struct MqttBindSchemaRequest {
    pub schema_name: String,
    pub resource_name: String,
}

/// Admin request: unbind a schema from a resource.
#[derive(Clone, Debug, PartialEq, Eq)]
pub struct MqttUnbindSchemaRequest {
    pub schema_name: String,
    pub resource_name: String,
}

/// Placement-center request: list schemas.
#[derive(Clone, Debug, PartialEq, Eq)]
pub struct ListSchemaRequest {
    pub cluster_name: String,
    pub schema_name: String,
}

/// Placement-center request: create a schema from its encoded data.
#[derive(Clone, Debug, PartialEq, Eq)]
pub struct CreateSchemaRequest {
    pub cluster_name: String,
    pub schema_name: String,
    pub schema: Vec<u8>,
}

/// Placement-center request: replace a schema with its encoded data.
#[derive(Clone, Debug, PartialEq, Eq)]
pub struct UpdateSchemaRequest {
    pub cluster_name: String,
    pub schema_name: String,
    pub schema: Vec<u8>,
}

/// Placement-center request: delete a schema.
#[derive(Clone, Debug, PartialEq, Eq)]
pub struct DeleteSchemaRequest {
    pub cluster_name: String,
    pub schema_name: String,
}

/// Placement-center request: list schema bindings.
#[derive(Clone, Debug, PartialEq, Eq)]
pub struct ListBindSchemaRequest {
    pub cluster_name: String,
    pub schema_name: String,
    pub resource_name: String,
}

/// Placement-center request: bind a schema to a resource.
#[derive(Clone, Debug, PartialEq, Eq)]
pub struct BindSchemaRequest {
    pub cluster_name: String,
    pub schema_name: String,
    pub resource_name: String,
}

/// Placement-center request: unbind a schema from a resource.
#[derive(Clone, Debug, PartialEq, Eq)]
pub struct UnBindSchemaRequest {
    pub cluster_name: String,
    pub schema_name: String,
    pub resource_name: String,
}

/// `data` is the schema that a create or update request with these fields
/// describes in cluster `cluster_name`.
pub open spec fn describes_schema(
    data: SchemaData,
    cluster_name: Seq<char>,
    schema_name: Seq<char>,
    schema_type: Seq<char>,
    schema: Seq<char>,
    desc: Seq<char>,
) -> bool {
    &&& schema_type_of(schema_type) == Some(data.schema_type)
    &&& data.cluster_name@ == cluster_name
    &&& data.name@ == schema_name
    &&& data.schema@ == schema
    &&& data.desc@ == desc
}

/// The fields of a create or update request fix the schema it describes: two
/// schemas described by the same fields are alike.
pub proof fn law_schema_fixed_by_request(
    first: SchemaData,
    second: SchemaData,
    cluster_name: Seq<char>,
    schema_name: Seq<char>,
    schema_type: Seq<char>,
    schema: Seq<char>,
    desc: Seq<char>,
)
    requires
        describes_schema(first, cluster_name, schema_name, schema_type, schema, desc),
        describes_schema(second, cluster_name, schema_name, schema_type, schema, desc),
    ensures
        first.schema_type == second.schema_type,
        first.cluster_name@ == second.cluster_name@,
        first.name@ == second.name@,
        first.schema@ == second.schema@,
        first.desc@ == second.desc@,
{
}

fn schema_data(
    cluster_name: &String,
    schema_name: &String,
    schema_type: &String,
    schema: &String,
    desc: &String,
) -> (result: Result<SchemaData, MqttBrokerError>)
    ensures
        match result {
            Ok(data) => describes_schema(data, cluster_name@, schema_name@, schema_type@, schema@, desc@),
            Err(MqttBrokerError::InvalidSchemaType(n)) => schema_type_of(schema_type@) is None && n@ == schema_type@,
            Err(_) => false,
        },
{
    let schema_type = parse_schema_type(schema_type)?;
    Ok(SchemaData {
        cluster_name: cluster_name.clone(),
        name: schema_name.clone(),
        schema_type,
        schema: schema.clone(),
        desc: desc.clone(),
    })
}

/// The schema that a create request describes, or the error for an unknown
/// schema type.
pub fn create_schema_data(cluster_name: &String, req: &MqttCreateSchemaRequest) -> (result: Result<SchemaData, MqttBrokerError>)
    ensures
        match result {
            Ok(data) => describes_schema(data, cluster_name@, req.schema_name@, req.schema_type@, req.schema@, req.desc@),
            Err(MqttBrokerError::InvalidSchemaType(n)) => schema_type_of(req.schema_type@) is None && n@ == req.schema_type@,
            Err(_) => false,
        },
{
    schema_data(cluster_name, &req.schema_name, &req.schema_type, &req.schema, &req.desc)
}

/// The placement-center request that creates the schema of `req`, whose
/// encoded schema data is `schema`.
pub fn create_schema_request(cluster_name: &String, req: &MqttCreateSchemaRequest, schema: Vec<u8>) -> (request: CreateSchemaRequest)
    ensures
        request.cluster_name@ == cluster_name@,
        request.schema_name@ == req.schema_name@,
        request.schema@ == schema@,
{
    CreateSchemaRequest { cluster_name: cluster_name.clone(), schema_name: req.schema_name.clone(), schema }
}

/// The schema that an update request describes, or the error for an unknown
/// schema type.
pub fn update_schema_data(cluster_name: &String, req: &MqttUpdateSchemaRequest) -> (result: Result<SchemaData, MqttBrokerError>)
    ensures
        match result {
            Ok(data) => describes_schema(data, cluster_name@, req.schema_name@, req.schema_type@, req.schema@, req.desc@),
            Err(MqttBrokerError::InvalidSchemaType(n)) => schema_type_of(req.schema_type@) is None && n@ == req.schema_type@,
            Err(_) => false,
        },
{
    schema_data(cluster_name, &req.schema_name, &req.schema_type, &req.schema, &req.desc)
}

/// The placement-center request that replaces the schema of `req`, whose
/// encoded schema data is `schema`.
pub fn update_schema_request(cluster_name: &String, req: &MqttUpdateSchemaRequest, schema: Vec<u8>) -> (request: UpdateSchemaRequest)
    ensures
        request.cluster_name@ == cluster_name@,
        request.schema_name@ == req.schema_name@,
        request.schema@ == schema@,
{
    UpdateSchemaRequest { cluster_name: cluster_name.clone(), schema_name: req.schema_name.clone(), schema }
}

/// The placement-center request that lists the schemas `req` asks for.
pub fn list_schema_request(cluster_name: &String, req: &MqttListSchemaRequest) -> (request: ListSchemaRequest)
    ensures
        request.cluster_name@ == cluster_name@,
        request.schema_name@ == req.schema_name@,
{
    ListSchemaRequest { cluster_name: cluster_name.clone(), schema_name: req.schema_name.clone() }
}

/// The placement-center request that deletes the schema `req` names.
pub fn delete_schema_request(cluster_name: &String, req: &MqttDeleteSchemaRequest) -> (request: DeleteSchemaRequest)
    ensures
        request.cluster_name@ == cluster_name@,
        request.schema_name@ == req.schema_name@,
{
    DeleteSchemaRequest { cluster_name: cluster_name.clone(), schema_name: req.schema_name.clone() }
}

/// The placement-center request that lists the bindings `req` asks for.
pub fn list_bind_schema_request(cluster_name: &String, req: &MqttListBindSchemaRequest) -> (request: ListBindSchemaRequest)
    ensures
        request.cluster_name@ == cluster_name@,
        request.schema_name@ == req.schema_name@,
        request.resource_name@ == req.resource_name@,
{
    ListBindSchemaRequest {
        cluster_name: cluster_name.clone(),
        schema_name: req.schema_name.clone(),
        resource_name: req.resource_name.clone(),
    }
}

/// The placement-center request that makes the binding `req` asks for.
pub fn bind_schema_request(cluster_name: &String, req: &MqttBindSchemaRequest) -> (request: BindSchemaRequest)
    ensures
        request.cluster_name@ == cluster_name@,
        request.schema_name@ == req.schema_name@,
        request.resource_name@ == req.resource_name@,
{
    BindSchemaRequest {
        cluster_name: cluster_name.clone(),
        schema_name: req.schema_name.clone(),
        resource_name: req.resource_name.clone(),
    }
}

/// The placement-center request that removes the binding `req` names.
pub fn unbind_schema_request(cluster_name: &String, req: &MqttUnbindSchemaRequest) -> (request: UnBindSchemaRequest)
    ensures
        request.cluster_name@ == cluster_name@,
        request.schema_name@ == req.schema_name@,
        request.resource_name@ == req.resource_name@,
{
    UnBindSchemaRequest {
        cluster_name: cluster_name.clone(),
        schema_name: req.schema_name.clone(),
        resource_name: req.resource_name.clone(),
    }
}

} // verus!
