use cuttle::ast::{NodeGraphWithMetadata, NodeMetadata, Position};
use cuttle::blender::BlenderValue;
use cuttle::error::{ParseError, Span};
use cuttle::graph::{Decimal, Node, NodeGraph, NodeId, Value};
use cuttle::parser::parse_geometry_nodes;
use cuttle::protocol::Fixed;

#[test]
fn parse_simple_cube() {
    let input = "cube { size: 2.0 }";
    let result = parse_geometry_nodes(input);
    assert!(result.is_ok());
    let graph = result.expect("Failed to parse cube");
    assert_eq!(graph.nodes.len(), 1);
    match &graph.nodes[0] {
        Node::Cube { size, .. } => {
            assert_eq!(size, &Value::Float(Decimal::new(20, 1)));
        }
        _ => panic!("Expected Cube node"),
    }
}

#[test]
fn parse_value_node() {
    let input = "value 42";
    let result = parse_geometry_nodes(input);
    assert!(result.is_ok());
    let graph = result.expect("Failed to parse value node");
    assert_eq!(graph.nodes.len(), 1);
    match &graph.nodes[0] {
        Node::Value { value, .. } => {
            assert_eq!(value, &Value::Integer(42));
        }
        _ => panic!("Expected Value node"),
    }
}

#[test]
fn parse_value_float() {
    let input = "value 42.5";
    let result = parse_geometry_nodes(input);
    assert!(result.is_ok());
    let graph = result.expect("Failed to parse float value");
    assert_eq!(graph.nodes.len(), 1);
    match &graph.nodes[0] {
        Node::Value { value, .. } => {
            assert_eq!(value, &Value::Float(Decimal::new(425, 1)));
        }
        _ => panic!("Expected Value node"),
    }
}

#[test]
fn parse_invalid_input() {
    let input = "invalid syntax";
    let result = parse_geometry_nodes(input);
    assert!(result.is_err());
    let errors = result.expect_err("Expected parse error");
    assert!(!errors.is_empty());
}

#[test]
fn parse_invalid_vector() {
    let input = "value (1, 2)";
    let result = parse_geometry_nodes(input);
    assert!(result.is_err());
    let errors = result.expect_err("Expected parse error");
    assert!(!errors.is_empty());
}

#[test]
fn parse_invalid_color() {
    let input = "value (1, 2, 3, 4, 5)";
    let result = parse_geometry_nodes(input);
    assert!(result.is_err());
    let errors = result.expect_err("Expected parse error");
    assert!(!errors.is_empty());
}

#[test]
fn parse_vector_and_color_values() {
    let graph = parse_geometry_nodes("value (1, 2.5, 3)").expect("Failed to parse vector");
    match &graph.nodes[0] {
        Node::Value { value, .. } => {
            assert_eq!(
                value,
                &Value::Vector(Decimal::new(1, 0), Decimal::new(25, 1), Decimal::new(3, 0))
            );
        }
        _ => panic!("Expected Value node"),
    }

    let graph = parse_geometry_nodes("value (1, 0.5, 0.25, 1)").expect("Failed to parse color");
    match &graph.nodes[0] {
        Node::Value { value, .. } => {
            assert_eq!(
                value,
                &Value::Color(
                    Decimal::new(1, 0),
                    Decimal::new(5, 1),
                    Decimal::new(25, 2),
                    Decimal::new(1, 0)
                )
            );
        }
        _ => panic!("Expected Value node"),
    }
}

#[test]
fn parse_bare_cube_defaults_its_size() {
    let graph = parse_geometry_nodes("cube").expect("Failed to parse bare cube");
    match &graph.nodes[0] {
        Node::Cube { id, size } => {
            assert_eq!(id.0, "cube_0");
            assert_eq!(size, &Value::Float(Decimal::new(20, 1)));
        }
        _ => panic!("Expected Cube node"),
    }
}

#[test]
fn parse_boolean_value() {
    let graph = parse_geometry_nodes("value true").expect("Failed to parse boolean");
    match &graph.nodes[0] {
        Node::Value { value, .. } => assert_eq!(value, &Value::Boolean(true)),
        _ => panic!("Expected Value node"),
    }
}

#[test]
fn parse_oversized_integer_is_invalid() {
    let result = parse_geometry_nodes("value 99999999999999999999");
    let errors = result.expect_err("Expected parse error");
    match &errors[0] {
        ParseError::InvalidNumber { found, .. } => {
            assert_eq!(found, "99999999999999999999");
        }
        _ => panic!("Expected an invalid-number error"),
    }
}

#[test]
fn test_parse_and_convert_cube() {
    let input = "cube { size: 2.0 }";
    let graph = parse_geometry_nodes(input).expect("Failed to parse cube in test");

    // Test parsing
    assert_eq!(graph.nodes.len(), 1);
    match &graph.nodes[0] {
        Node::Cube { size, .. } => {
            assert_eq!(size, &Value::Float(Decimal::new(20, 1)));
        }
        _ => panic!("Expected Cube node"),
    }

    // Test conversion to the editor-side format
    let blender_graph = graph.to_blender();
    assert_eq!(blender_graph.nodes.len(), 1);
    assert_eq!(blender_graph.nodes[0].node_type, "GeometryNodeMeshCube");
    assert_eq!(blender_graph.nodes[0].inputs[0].name, "Size");
}

#[test]
fn test_parse_and_convert_value() {
    let input = "value 42";
    let graph = parse_geometry_nodes(input).expect("Failed to parse cube in test");

    // Test parsing
    assert_eq!(graph.nodes.len(), 1);
    match &graph.nodes[0] {
        Node::Value { value, .. } => {
            assert_eq!(value, &Value::Integer(42));
        }
        _ => panic!("Expected Value node"),
    }

    // Test conversion to the editor-side format
    let blender_graph = graph.to_blender();
    assert_eq!(blender_graph.nodes.len(), 1);
    assert_eq!(blender_graph.nodes[0].node_type, "ShaderNodeValue");
    assert_eq!(blender_graph.nodes[0].outputs[0].name, "Value");
}

#[test]
fn test_bidirectional_value_conversion() {
    let original_value = Value::Float(Decimal::new(314159265358979, 14));
    let blender_value: BlenderValue = original_value.into();
    let converted_back: Value = blender_value.into();
    assert_eq!(original_value, converted_back);
}

#[test]
fn find_node_returns_the_first_match() {
    let mut graph = NodeGraph::new();
    graph.add_node(Node::Value {
        id: NodeId("a".to_string()),
        value: Value::Integer(1),
    });
    graph.add_node(Node::Cube {
        id: NodeId("b".to_string()),
        size: Value::Float(Decimal::new(10, 1)),
    });

    match graph.find_node(&NodeId("b".to_string())) {
        Some(Node::Cube { id, .. }) => assert_eq!(id.0, "b"),
        _ => panic!("Expected the cube node"),
    }
    assert!(graph.find_node(&NodeId("c".to_string())).is_none());
}

#[test]
fn parse_error_span() {
    let error = ParseError::InvalidNumber {
        span: Span { start: 5, end: 10 },
        found: "abc".to_string(),
        expected: "number".to_string(),
    };
    assert_eq!(error.span(), Span { start: 5, end: 10 });
}

#[test]
fn parse_error_message() {
    let error = ParseError::InvalidNumber {
        span: Span { start: 0, end: 3 },
        found: "abc".to_string(),
        expected: "number".to_string(),
    };
    assert_eq!(error.message(), "Invalid number format, expected number");
}

#[test]
fn parse_error_label_message() {
    let error = ParseError::InvalidNumber {
        span: Span { start: 0, end: 3 },
        found: "abc".to_string(),
        expected: "number".to_string(),
    };
    assert_eq!(error.label_message(), "'abc' is not a valid number");
}

#[test]
fn parse_error_display() {
    let error = ParseError::InvalidVector {
        span: Span { start: 0, end: 7 },
        found_components: 2,
        expected_components: 3,
    };
    assert_eq!(
        error.message(),
        "Invalid vector: found 2 components, expected 3"
    );
}

#[test]
fn unexpected_token_messages() {
    let errors = parse_geometry_nodes("invalid syntax").expect_err("Expected parse error");
    assert_eq!(errors.len(), 1);
    assert_eq!(errors[0].message(), "Expected one of: cube, value");
    assert_eq!(errors[0].label_message(), "Found 'i' here");

    let empty = ParseError::UnexpectedToken {
        span: Span { start: 0, end: 1 },
        found: None,
        expected: vec![],
    };
    assert_eq!(empty.message(), "Unexpected token");
    assert_eq!(empty.label_message(), "Found end of input here");
}

#[test]
fn metadata_defaults_and_lookup() {
    let mut graph = NodeGraphWithMetadata::new();
    graph.add_node(Node::Value {
        id: NodeId("v".to_string()),
        value: Value::Integer(7),
    });
    let meta = graph
        .metadata_for(&NodeId("v".to_string()))
        .expect("Expected default metadata");
    assert_eq!(meta, NodeMetadata::default());
    assert!(meta.expanded);
    assert!(!meta.selected);

    let pinned = NodeMetadata {
        position: Some(Position { x: Fixed::from_milli(1000), y: Fixed::from_milli(-500) }),
        selected: true,
        expanded: false,
    };
    graph.add_node_with_metadata(
        Node::Cube {
            id: NodeId("c".to_string()),
            size: Value::Float(Decimal::new(20, 1)),
        },
        pinned,
    );
    let meta = graph
        .metadata_for(&NodeId("c".to_string()))
        .expect("Expected stored metadata");
    assert_eq!(meta, pinned);
    assert!(graph.metadata_for(&NodeId("x".to_string())).is_none());
}

#[test]
fn parse_empty_input_reports_end_of_input() {
    let errors = parse_geometry_nodes("   ").expect_err("Expected parse error");
    match &errors[0] {
        ParseError::UnexpectedEndOfInput { expected, .. } => {
            assert_eq!(expected, &vec!["cube", "value"]);
        }
        _ => panic!("Expected an end-of-input error"),
    }
    assert_eq!(
        errors[0].message(),
        "Unexpected end of input, expected: cube, value"
    );
    assert_eq!(errors[0].label_message(), "Input ended here");
}

#[test]
fn remaining_error_variants_render_their_texts() {
    let node_type = ParseError::InvalidNodeType {
        span: Span { start: 0, end: 5 },
        found: "plane".to_string(),
        valid_types: vec!["cube".to_string(), "value".to_string()],
    };
    assert_eq!(
        node_type.message(),
        "Invalid node type 'plane', valid types: cube, value"
    );
    assert_eq!(node_type.label_message(), "'plane' is not a valid node type");

    let missing = ParseError::MissingRequiredField {
        span: Span { start: 0, end: 4 },
        field: "size".to_string(),
        node_type: "cube".to_string(),
    };
    assert_eq!(missing.message(), "Missing required field 'size' for cube node");
    assert_eq!(missing.label_message(), "'size' field is required");

    let bad_value = ParseError::InvalidFieldValue {
        span: Span { start: 0, end: 3 },
        field: "size".to_string(),
        found: "abc".to_string(),
        expected: "number".to_string(),
    };
    assert_eq!(
        bad_value.message(),
        "Invalid value 'abc' for field 'size', expected number"
    );
    assert_eq!(bad_value.label_message(), "'abc' is not valid here");

    let color = ParseError::InvalidColor {
        span: Span { start: 0, end: 16 },
        found_components: 5,
        expected_components: 4,
    };
    assert_eq!(color.message(), "Invalid color: found 5 components, expected 4");
    assert_eq!(color.label_message(), "Color has 5 components");
}
