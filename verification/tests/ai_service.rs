use agrotour_ai::ai_service::{AIRequest, AIResponse, AIService, GenerationCall, FAILURE_MARKER, MODEL};
use agrotour_ai::prompt::{DEFAULT_INSTRUCTION, DESCRIPTION_INSTRUCTION, STOCK_INSTRUCTION};

fn request(prompt: &str, context: Option<&str>) -> AIRequest {
    AIRequest { prompt: prompt.to_string(), context: context.map(|c| c.to_string()) }
}

#[test]
fn model_and_failure_marker_are_exact() {
    assert_eq!(MODEL, "qwen2.5:3b-instruct");
    assert_eq!(FAILURE_MARKER, "Ollama error: ");
}

#[test]
fn chat_without_context_asks_the_fixed_model_under_the_default_instruction() {
    let service = AIService::new();
    let call = service.chat(request("What is the best harvest season for tomatoes?", None));
    assert_eq!(call.model, "qwen2.5:3b-instruct");
    assert!(call.prompt.contains("Eres un asistente agrícola experto para Agrotour."));
    assert!(call.prompt.contains("What is the best harvest season for tomatoes?"));
    assert_eq!(
        call.prompt,
        "<|im_start|>system\nEres un asistente agrícola experto para Agrotour.\n<|im_end|>\n<|im_start|>user\nWhat is the best harvest season for tomatoes?\n<|im_end|>\n<|im_start|>assistant"
    );
}

#[test]
fn chat_success_returns_the_text_under_the_fixed_model() {
    let service = AIService::new();
    let _call = service.chat(request("What is the best harvest season for tomatoes?", None));
    let result = service.reply(Ok("Autumn is ideal.".to_string()));
    let response: AIResponse = result.expect("a generated text is a success");
    assert_eq!(response.response, "Autumn is ideal.");
    assert_eq!(response.model, "qwen2.5:3b-instruct");
}

#[test]
fn chat_failure_returns_the_marked_error() {
    let service = AIService::new();
    let _call = service.chat(request("What is the best harvest season for tomatoes?", None));
    let result = service.reply(Err("connection refused".to_string()));
    match result {
        Ok(_) => panic!("a backend error is a failure"),
        Err(message) => assert_eq!(message, "Ollama error: connection refused"),
    }
}

#[test]
fn chat_with_context_uses_it() {
    let service = AIService::new();
    let call = service.chat(request("¿Riego hoy?", Some("Responde sí o no.")));
    assert_eq!(call.model, MODEL);
    assert_eq!(call.prompt, service.build_prompt("¿Riego hoy?", Some("Responde sí o no.")));
    assert!(call.prompt.contains("Responde sí o no."));
    assert!(!call.prompt.contains(DEFAULT_INSTRUCTION));
}

#[test]
fn chat_with_empty_context_keeps_it_empty() {
    let service = AIService::new();
    let call = service.chat(request("hola", Some("")));
    assert_eq!(
        call.prompt,
        "<|im_start|>system\n\n<|im_end|>\n<|im_start|>user\nhola\n<|im_end|>\n<|im_start|>assistant"
    );
}

#[test]
fn model_is_the_same_whatever_the_request_and_the_text() {
    let service = AIService::new();
    for (prompt, context) in [("", None), ("a", Some("b")), ("qwen", Some("MODEL=other"))] {
        let call: GenerationCall = service.chat(request(prompt, context));
        assert_eq!(call.model, "qwen2.5:3b-instruct");
    }
    for text in ["", "x", "model: llama3", "línea\notra"] {
        let response = service.reply(Ok(text.to_string())).expect("success");
        assert_eq!(response.model, "qwen2.5:3b-instruct");
        assert_eq!(response.response, text);
    }
}

#[test]
fn failure_message_holds_the_backend_text() {
    let service = AIService::new();
    for cause in ["", "connection refused", "model 'x' not found", "línea\notra", "Ollama error: "] {
        let message = service.reply(Err(cause.to_string())).expect_err("failure");
        assert!(message.contains(cause));
        assert_eq!(message, format!("Ollama error: {}", cause));
        assert_ne!(message, cause);
        let text_only = service.reply_text(Err(cause.to_string())).expect_err("failure");
        assert_eq!(text_only, message);
    }
}

#[test]
fn failure_with_empty_backend_text_is_the_marker_alone() {
    let service = AIService::new();
    assert_eq!(service.reply(Err(String::new())).expect_err("failure"), "Ollama error: ");
}

#[test]
fn reply_text_returns_the_generated_text_alone() {
    let service = AIService::new();
    assert_eq!(service.reply_text(Ok("Reduce el stock.".to_string())), Ok("Reduce el stock.".to_string()));
    assert_eq!(service.reply_text(Ok(String::new())), Ok(String::new()));
}

#[test]
fn reply_text_failure_is_marked() {
    let service = AIService::new();
    assert_eq!(
        service.reply_text(Err("connection refused".to_string())),
        Err("Ollama error: connection refused".to_string())
    );
}

#[test]
fn analyze_stock_prompt_holds_its_fields() {
    let service = AIService::new();
    let call = service.analyze_stock("Organic Tomatoes", "120 units sold", 40);
    assert!(call.prompt.contains("Organic Tomatoes"));
    assert!(call.prompt.contains("120 units sold"));
    assert!(call.prompt.contains("40 unidades"));
    assert_eq!(call.model, "qwen2.5:3b-instruct");
}

#[test]
fn analyze_stock_prompt_is_exact() {
    let service = AIService::new();
    let call = service.analyze_stock("Organic Tomatoes", "120 units sold", 40);
    assert_eq!(
        call.prompt,
        "<|im_start|>system\nEres un experto en análisis de inventario agrícola. Proporciona recomendaciones concretas y accionables.\n<|im_end|>\n<|im_start|>user\nAnaliza el siguiente producto:\n- Producto: Organic Tomatoes\n- Ventas últimos 30 días: 120 units sold\n- Stock actual: 40 unidades\n\nRecomienda:\n1. ¿Debo aumentar o reducir stock?\n2. ¿Cuál es el momento óptimo de cosecha/reposición?\n3. Precio sugerido basado en demanda.\n<|im_end|>\n<|im_start|>assistant"
    );
}

#[test]
fn analyze_stock_always_sets_the_stock_instruction() {
    let service = AIService::new();
    let cases = [("", "", 0), ("Papas", "10", -3), (DEFAULT_INSTRUCTION, DESCRIPTION_INSTRUCTION, i32::MIN)];
    for (name, sold, count) in cases {
        let built = AIRequest::stock_analysis(name, sold, count);
        assert_eq!(built.context.as_deref(), Some(STOCK_INSTRUCTION));
        let call = service.analyze_stock(name, sold, count);
        let head = format!("<|im_start|>system\n{}\n<|im_end|>\n", STOCK_INSTRUCTION);
        assert!(call.prompt.starts_with(&head));
        assert_eq!(call.prompt, service.chat(built).prompt);
    }
}

#[test]
fn generate_description_prompt_is_exact() {
    let service = AIService::new();
    let call = service.generate_description("Miel de abeja", "Apicultura", "orgánica, 500 g");
    assert_eq!(call.model, "qwen2.5:3b-instruct");
    assert_eq!(
        call.prompt,
        "<|im_start|>system\nEres un copywriter especializado en productos agrícolas. Crea descripciones atractivas y SEO-optimizadas.\n<|im_end|>\n<|im_start|>user\nGenera una descripción atractiva para:\n- Producto: Miel de abeja\n- Categoría: Apicultura\n- Características: orgánica, 500 g\n\nMáximo 150 palabras, enfocado en beneficios para el cliente.\n<|im_end|>\n<|im_start|>assistant"
    );
}

#[test]
fn generate_description_always_sets_the_description_instruction() {
    let service = AIService::new();
    let cases = [("", "", ""), ("Queso", "Lácteos", "curado"), (STOCK_INSTRUCTION, "x", DEFAULT_INSTRUCTION)];
    for (name, category, features) in cases {
        let built = AIRequest::product_description(name, category, features);
        assert_eq!(built.context.as_deref(), Some(DESCRIPTION_INSTRUCTION));
        let call = service.generate_description(name, category, features);
        let head = format!("<|im_start|>system\n{}\n<|im_end|>\n", DESCRIPTION_INSTRUCTION);
        assert!(call.prompt.starts_with(&head));
        assert_eq!(call.prompt, service.chat(built).prompt);
    }
}

#[test]
fn stock_request_carries_the_stock_query() {
    let built = AIRequest::stock_analysis("Organic Tomatoes", "120 units sold", 40);
    assert_eq!(
        built.prompt,
        agrotour_ai::prompt::stock_analysis_query("Organic Tomatoes", "120 units sold", 40)
    );
}

#[test]
fn description_request_carries_the_description_query() {
    let built = AIRequest::product_description("Miel", "Apicultura", "de flores");
    assert_eq!(
        built.prompt,
        agrotour_ai::prompt::product_description_query("Miel", "Apicultura", "de flores")
    );
}
