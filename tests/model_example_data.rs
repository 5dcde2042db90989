use completion_chat::model_example_data::ModelExampleData;

#[test]
fn models_from_json() {
    let model_data = ModelExampleData::new();
    let json_data: String = model_data.json;
    let v: serde_json::Value = match serde_json::from_str(json_data.as_str()) {
        Ok(v) => v,
        Err(err) => panic!("{err}"),
    };
    println!("{:?}", &v);
    assert!(!v["data"].as_array().expect("a list of models").is_empty());
}

#[test]
fn model_example_data_holds_the_sample() {
    let data = ModelExampleData::new();
    assert!(data.json.starts_with("{\n \"object\": \"list\",\n  \"data\": [\n    {\n      \"id\": \"babbage\","));
    assert!(data.json.ends_with("      \"parent\": \"babbage:2020-05-03\"\n    }\n  ]\n}"));
    assert!(data.json.contains("\"id\": \"davinci\""));
    assert!(data.json.matches("\"object\": \"model\"").count() > 1);
    assert_eq!(data.json, ModelExampleData::new().json);
}
