//! The assistant's three operations, each in two halves around the one call
//! to the model server: what to send, and what to make of the outcome.
//!
//! The server is reached by the caller. It is handed a [`GenerationCall`] and
//! gives back the generated text or the text of its error; the service turns
//! either into what the operation returns.

use crate::decimal::decimal_digits;
use crate::prompt::{
    description_query, instruction, lemma_default_instruction_comes_from_request,
    lemma_description_query_contains_fields, lemma_prompt_contains_instruction,
    lemma_prompt_contains_query, lemma_stock_query_contains_fields, option_text,
    product_description_query, prompt_text, stock_analysis_query, stock_query, ASSISTANT_OPEN,
    DEFAULT_INSTRUCTION, DESCRIPTION_INSTRUCTION, STOCK_INSTRUCTION, STOCK_UNIT, SYSTEM_OPEN,
    USER_OPEN,
};
use crate::text::{contains, lemma_contains_suffix, lemma_contains_transitive};
use vstd::prelude::*;
use vstd::string::StringExecFns;

verus! {

/// The model that serves every request.
pub const MODEL: &'static str = "qwen2.5:3b-instruct";

/// What every failure message starts with.
pub const FAILURE_MARKER: &'static str = "Ollama error: ";

/// A question for the assistant, with an optional instruction for the model.
#[derive(Debug)]
pub struct AIRequest {
    pub prompt: String,
    pub context: Option<String>,
}

/// The assistant's answer and the model that gave it.
#[derive(Debug)]
pub struct AIResponse {
    pub response: String,
    pub model: String,
}

/// What the model server is asked: a model and the full prompt.
#[derive(Debug)]
pub struct GenerationCall {
    pub model: String,
    pub prompt: String,
}

/// The assistant: it holds the model's identifier, fixed when it is made.
pub struct AIService {
    model: String,
}

/// What an [`AIRequest`] holds.
pub struct AIRequestView {
    pub prompt: Seq<char>,
    pub context: Option<Seq<char>>,
}

/// What an [`AIResponse`] holds.
pub struct AIResponseView {
    pub response: Seq<char>,
    pub model: Seq<char>,
}

/// What a [`GenerationCall`] holds.
pub struct GenerationCallView {
    pub model: Seq<char>,
    pub prompt: Seq<char>,
}

impl View for AIRequest {
    type V = AIRequestView;

    open spec fn view(&self) -> AIRequestView {
        AIRequestView {
            prompt: self.prompt@,
            context: match self.context {
                Some(c) => Some(c@),
                None => None,
            },
        }
    }
}

impl View for AIResponse {
    type V = AIResponseView;

    open spec fn view(&self) -> AIResponseView {
        AIResponseView { response: self.response@, model: self.model@ }
    }
}

impl View for GenerationCall {
    type V = GenerationCallView;

    open spec fn view(&self) -> GenerationCallView {
        GenerationCallView { model: self.model@, prompt: self.prompt@ }
    }
}

/// The call that serves `request`: the fixed model, and the prompt built from
/// the request's question and instruction.
pub open spec fn generation_call(request: AIRequestView) -> GenerationCallView {
    GenerationCallView { model: MODEL@, prompt: prompt_text(request.prompt, request.context) }
}

/// The request that asks for a stock analysis: its instruction is fixed.
pub open spec fn stock_request(
    product_name: Seq<char>,
    sales_data: Seq<char>,
    current_stock: int,
) -> AIRequestView {
    AIRequestView {
        prompt: stock_query(product_name, sales_data, current_stock),
        context: Some(STOCK_INSTRUCTION@),
    }
}

/// The request that asks for a product description: its instruction is fixed.
pub open spec fn description_request(
    product_name: Seq<char>,
    category: Seq<char>,
    features: Seq<char>,
) -> AIRequestView {
    AIRequestView {
        prompt: description_query(product_name, category, features),
        context: Some(DESCRIPTION_INSTRUCTION@),
    }
}

/// The message of a failure whose cause the server described as
/// `backend_error`.
pub open spec fn failure_text(backend_error: Seq<char>) -> Seq<char> {
    FAILURE_MARKER@ + backend_error
}

/// Whatever the product, its sales and its stock, the prompt of a stock
/// analysis carries the stock instruction, and holds the product's name, the
/// sales and the stock count before its unit.
pub proof fn lemma_stock_analysis_prompt(
    product_name: Seq<char>,
    sales_data: Seq<char>,
    current_stock: int,
)
    ensures
        stock_request(product_name, sales_data, current_stock).context == Some(STOCK_INSTRUCTION@),
        ({
            let prompt = generation_call(
                stock_request(product_name, sales_data, current_stock),
            ).prompt;
            &&& contains(prompt, STOCK_INSTRUCTION@)
            &&& contains(prompt, product_name)
            &&& contains(prompt, sales_data)
            &&& contains(prompt, decimal_digits(current_stock) + STOCK_UNIT@)
        }),
{
    let query = stock_query(product_name, sales_data, current_stock);
    let context = Some(STOCK_INSTRUCTION@);
    let prompt = prompt_text(query, context);
    lemma_prompt_contains_instruction(query, context);
    lemma_prompt_contains_query(query, context);
    lemma_stock_query_contains_fields(product_name, sales_data, current_stock);
    lemma_contains_transitive(prompt, query, product_name);
    lemma_contains_transitive(prompt, query, sales_data);
    lemma_contains_transitive(prompt, query, decimal_digits(current_stock) + STOCK_UNIT@);
}

/// Whatever the product, its category and its features, the prompt of a
/// product description carries the description instruction, and holds the
/// product's name, the category and the features.
pub proof fn lemma_description_prompt(
    product_name: Seq<char>,
    category: Seq<char>,
    features: Seq<char>,
)
    ensures
        description_request(product_name, category, features).context == Some(
            DESCRIPTION_INSTRUCTION@,
        ),
        ({
            let prompt = generation_call(
                description_request(product_name, category, features),
            ).prompt;
            &&& contains(prompt, DESCRIPTION_INSTRUCTION@)
            &&& contains(prompt, product_name)
            &&& contains(prompt, category)
            &&& contains(prompt, features)
        }),
{
    let query = description_query(product_name, category, features);
    let context = Some(DESCRIPTION_INSTRUCTION@);
    let prompt = prompt_text(query, context);
    lemma_prompt_contains_instruction(query, context);
    lemma_prompt_contains_query(query, context);
    lemma_description_query_contains_fields(product_name, category, features);
    lemma_contains_transitive(prompt, query, product_name);
    lemma_contains_transitive(prompt, query, category);
    lemma_contains_transitive(prompt, query, features);
}

/// A failure message holds the server's own description of the failure.
pub proof fn lemma_failure_text_contains_cause(backend_error: Seq<char>)
    ensures
        contains(failure_text(backend_error), backend_error),
{
    lemma_contains_suffix(FAILURE_MARKER@, backend_error);
}

impl AIRequest {
    /// The request for an analysis of a product's stock.
    pub fn stock_analysis(
        product_name: &str,
        sales_data: &str,
        current_stock: i32,
    ) -> (request: AIRequest)
        ensures
            request@ == stock_request(product_name@, sales_data@, current_stock as int),
            request@.context == Some(STOCK_INSTRUCTION@),
    {
        AIRequest {
            prompt: stock_analysis_query(product_name, sales_data, current_stock),
            context: Some(String::from_str(STOCK_INSTRUCTION)),
        }
    }

    /// The request for the description of a product.
    pub fn product_description(
        product_name: &str,
        category: &str,
        features: &str,
    ) -> (request: AIRequest)
        ensures
            request@ == description_request(product_name@, category@, features@),
            request@.context == Some(DESCRIPTION_INSTRUCTION@),
    {
        AIRequest {
            prompt: product_description_query(product_name, category, features),
            context: Some(String::from_str(DESCRIPTION_INSTRUCTION)),
        }
    }
}

impl AIService {
    #[verifier::type_invariant]
    spec fn model_is_fixed(&self) -> bool {
        self.model@ == MODEL@
    }

    /// The identifier of the model that this service asks for.
    pub closed spec fn model_text(&self) -> Seq<char> {
        self.model@
    }

    /// A service for the fixed model.
    pub fn new() -> (service: Self)
        ensures
            service.model_text() == MODEL@,
            service.model_text().len() > 0,
    {
        proof {
            reveal_strlit("qwen2.5:3b-instruct");
        }
        AIService { model: String::from_str(MODEL) }
    }

    /// Builds the prompt for `user_query`, with the default instruction where
    /// `context` is absent.
    pub fn build_prompt(&self, user_query: &str, context: Option<&str>) -> (prompt: String)
        ensures
            prompt@ == prompt_text(user_query@, option_text(context)),
            contains(prompt@, user_query@),
            contains(prompt@, instruction(option_text(context))),
            context matches Some(c) ==> (contains(prompt@, DEFAULT_INSTRUCTION@) <==> (contains(
                c@,
                DEFAULT_INSTRUCTION@,
            ) || contains(user_query@, DEFAULT_INSTRUCTION@))),
    {
        proof {
            lemma_prompt_contains_query(user_query@, option_text(context));
            lemma_prompt_contains_instruction(user_query@, option_text(context));
            if let Some(c) = context {
                lemma_default_instruction_comes_from_request(user_query@, c@);
            }
        }
        let system_context = match context {
            Some(c) => c,
            None => DEFAULT_INSTRUCTION,
        };
        let mut prompt = String::from_str(SYSTEM_OPEN);
        prompt.append(system_context);
        prompt.append(USER_OPEN);
        prompt.append(user_query);
        prompt.append(ASSISTANT_OPEN);
        prompt
    }

    /// The call to the model server that serves `request`.
    pub fn chat(&self, request: AIRequest) -> (call: GenerationCall)
        ensures
            call@ == generation_call(request@),
            call.model@ == self.model_text(),
    {
        proof {
            use_type_invariant(self);
        }
        let context = match &request.context {
            Some(c) => Some(c.as_str()),
            None => None,
        };
        let full_prompt = self.build_prompt(request.prompt.as_str(), context);
        GenerationCall { model: self.model.clone(), prompt: full_prompt }
    }

    /// What a chat returns once its call has ended in `outcome`: the text that
    /// the server generated, or the text of its error.
    pub fn reply(&self, outcome: Result<String, String>) -> (result: Result<AIResponse, String>)
        ensures
            (match outcome {
                Ok(text) => result matches Ok(response) && response.response@ == text@
                    && response.model@ == MODEL@ && response.model@ == self.model_text(),
                Err(backend_error) => result matches Err(message) && message@ == failure_text(
                    backend_error@,
                ) && contains(message@, backend_error@),
            }),
    {
        proof {
            use_type_invariant(self);
        }
        match outcome {
            Ok(text) => Ok(AIResponse { response: text, model: self.model.clone() }),
            Err(backend_error) => {
                proof {
                    lemma_failure_text_contains_cause(backend_error@);
                }
                let mut message = String::from_str(FAILURE_MARKER);
                message.append(backend_error.as_str());
                Err(message)
            },
        }
    }

    /// The call to the model server that asks for an analysis of a product's
    /// stock.
    pub fn analyze_stock(
        &self,
        product_name: &str,
        sales_data: &str,
        current_stock: i32,
    ) -> (call: GenerationCall)
        ensures
            call@ == generation_call(stock_request(product_name@, sales_data@, current_stock as int)),
            call.model@ == self.model_text(),
            call.prompt@ == prompt_text(
                stock_query(product_name@, sales_data@, current_stock as int),
                Some(STOCK_INSTRUCTION@),
            ),
    {
        self.chat(AIRequest::stock_analysis(product_name, sales_data, current_stock))
    }

    /// The call to the model server that asks for the description of a
    /// product.
    pub fn generate_description(
        &self,
        product_name: &str,
        category: &str,
        features: &str,
    ) -> (call: GenerationCall)
        ensures
            call@ == generation_call(description_request(product_name@, category@, features@)),
            call.model@ == self.model_text(),
            call.prompt@ == prompt_text(
                description_query(product_name@, category@, features@),
                Some(DESCRIPTION_INSTRUCTION@),
            ),
    {
        self.chat(AIRequest::product_description(product_name, category, features))
    }

    /// What a stock analysis or a product description returns once its call
    /// has ended in `outcome`: the generated text alone, or the failure
    /// message.
    pub fn reply_text(&self, outcome: Result<String, String>) -> (result: Result<String, String>)
        ensures
            (match outcome {
                Ok(text) => result matches Ok(generated) && generated@ == text@,
                Err(backend_error) => result matches Err(message) && message@ == failure_text(
                    backend_error@,
                ) && contains(message@, backend_error@),
            }),
    {
        match self.reply(outcome) {
            Ok(response) => Ok(response.response),
            Err(message) => Err(message),
        }
    }
}

} // verus!
