use mqtt_broker::schema::{
    bind_schema_request, create_schema_data, create_schema_request, delete_schema_request,
    list_bind_schema_request, list_schema_request, parse_schema_type, unbind_schema_request,
    update_schema_data, update_schema_request, MqttBindSchemaRequest, MqttBrokerError,
    MqttCreateSchemaRequest, MqttDeleteSchemaRequest, MqttListBindSchemaRequest,
    MqttListSchemaRequest, MqttUnbindSchemaRequest, MqttUpdateSchemaRequest, SchemaType,
};

#[test]
fn schema_type_names() {
    assert_eq!(parse_schema_type(&"".to_string()).unwrap(), SchemaType::JSON);
    assert_eq!(parse_schema_type(&"json".to_string()).unwrap(), SchemaType::JSON);
    assert_eq!(parse_schema_type(&"avro".to_string()).unwrap(), SchemaType::AVRO);
    assert_eq!(parse_schema_type(&"protobuf".to_string()).unwrap(), SchemaType::PROTOBUF);
    match parse_schema_type(&"JSON".to_string()) {
        Err(MqttBrokerError::InvalidSchemaType(name)) => assert_eq!(name, "JSON"),
        _ => panic!("an unknown schema type must be refused"),
    }
}

fn create_req(schema_type: &str) -> MqttCreateSchemaRequest {
    MqttCreateSchemaRequest {
        schema_name: "s1".to_string(),
        schema_type: schema_type.to_string(),
        schema: "{\"type\":\"object\"}".to_string(),
        desc: "a schema".to_string(),
    }
}

#[test]
fn create_schema_data_and_request() {
    let cluster = "c1".to_string();
    let req = create_req("avro");
    let data = create_schema_data(&cluster, &req).unwrap();
    assert_eq!(data.cluster_name, "c1");
    assert_eq!(data.name, "s1");
    assert_eq!(data.schema_type, SchemaType::AVRO);
    assert_eq!(data.schema, "{\"type\":\"object\"}");
    assert_eq!(data.desc, "a schema");
    let request = create_schema_request(&cluster, &req, vec![1, 2, 3]);
    assert_eq!(request.cluster_name, "c1");
    assert_eq!(request.schema_name, "s1");
    assert_eq!(request.schema, vec![1, 2, 3]);
}

#[test]
fn create_schema_refuses_unknown_type() {
    match create_schema_data(&"c1".to_string(), &create_req("xml")) {
        Err(MqttBrokerError::InvalidSchemaType(name)) => assert_eq!(name, "xml"),
        _ => panic!("an unknown schema type must be refused"),
    }
}

#[test]
fn update_schema_data_and_request() {
    let cluster = "c1".to_string();
    let req = MqttUpdateSchemaRequest {
        schema_name: "s2".to_string(),
        schema_type: "".to_string(),
        schema: "x".to_string(),
        desc: "d".to_string(),
    };
    let data = update_schema_data(&cluster, &req).unwrap();
    assert_eq!(data.schema_type, SchemaType::JSON);
    assert_eq!(data.name, "s2");
    let request = update_schema_request(&cluster, &req, vec![9]);
    assert_eq!(request.schema_name, "s2");
    assert_eq!(request.schema, vec![9]);
    let bad = MqttUpdateSchemaRequest { schema_type: "yaml".to_string(), ..req };
    assert!(matches!(update_schema_data(&cluster, &bad), Err(MqttBrokerError::InvalidSchemaType(_))));
}

#[test]
fn plain_schema_requests() {
    let cluster = "c9".to_string();
    let r = list_schema_request(&cluster, &MqttListSchemaRequest { schema_name: "a".to_string() });
    assert_eq!((r.cluster_name.as_str(), r.schema_name.as_str()), ("c9", "a"));
    let r = delete_schema_request(&cluster, &MqttDeleteSchemaRequest { schema_name: "b".to_string() });
    assert_eq!((r.cluster_name.as_str(), r.schema_name.as_str()), ("c9", "b"));
    let r = list_bind_schema_request(&cluster, &MqttListBindSchemaRequest { schema_name: "s".to_string(), resource_name: "t".to_string() });
    assert_eq!((r.cluster_name.as_str(), r.schema_name.as_str(), r.resource_name.as_str()), ("c9", "s", "t"));
    let r = bind_schema_request(&cluster, &MqttBindSchemaRequest { schema_name: "s".to_string(), resource_name: "u".to_string() });
    assert_eq!((r.cluster_name.as_str(), r.schema_name.as_str(), r.resource_name.as_str()), ("c9", "s", "u"));
    let r = unbind_schema_request(&cluster, &MqttUnbindSchemaRequest { schema_name: "s".to_string(), resource_name: "v".to_string() });
    assert_eq!((r.cluster_name.as_str(), r.schema_name.as_str(), r.resource_name.as_str()), ("c9", "s", "v"));
}
