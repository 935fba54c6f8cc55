//! The prompt templates: what the model is sent for a question, for a stock
//! analysis and for a product description.
//!
//! A prompt is a system turn that holds one instruction, a user turn that
//! holds the query, and the opening of the assistant's turn. Nothing in the
//! query or the instruction is escaped: role markers inside them reach the
//! model as they are.

use crate::decimal::{decimal_digits, decimal_text};
use crate::text::{
    contains, free_of, lemma_contains_in_part, lemma_occurrence_avoids, lemma_occurrence_within,
    lemma_occurs_between, occurs_at,
};
use vstd::prelude::*;
use vstd::string::StringExecFns;

verus! {

/// Opens the system turn.
pub const SYSTEM_OPEN: &'static str = "<|im_start|>system\n";

/// Closes the system turn and opens the user's.
pub const USER_OPEN: &'static str = "\n<|im_end|>\n<|im_start|>user\n";

/// Closes the user's turn and opens the assistant's.
pub const ASSISTANT_OPEN: &'static str = "\n<|im_end|>\n<|im_start|>assistant";

/// The instruction of a request that brings none.
pub const DEFAULT_INSTRUCTION: &'static str = "Eres un asistente agrícola experto para Agrotour.";

/// The instruction of every stock analysis.
pub const STOCK_INSTRUCTION: &'static str =
    "Eres un experto en análisis de inventario agrícola. Proporciona recomendaciones concretas y accionables.";

/// The instruction of every product description.
pub const DESCRIPTION_INSTRUCTION: &'static str =
    "Eres un copywriter especializado en productos agrícolas. Crea descripciones atractivas y SEO-optimizadas.";

/// Stock analysis: what precedes the product's name.
pub const STOCK_PRODUCT_LABEL: &'static str = "Analiza el siguiente producto:\n- Producto: ";

/// Stock analysis: what stands between the product's name and its sales.
pub const STOCK_SALES_LABEL: &'static str = "\n- Ventas últimos 30 días: ";

/// Stock analysis: what stands between the sales and the stock count.
pub const STOCK_LEVEL_LABEL: &'static str = "\n- Stock actual: ";

/// Stock analysis: the unit of the stock count.
pub const STOCK_UNIT: &'static str = " unidades";

/// Stock analysis: the three questions.
pub const STOCK_QUESTIONS: &'static str =
    "\n\nRecomienda:\n1. ¿Debo aumentar o reducir stock?\n2. ¿Cuál es el momento óptimo de cosecha/reposición?\n3. Precio sugerido basado en demanda.";

/// Product description: what precedes the product's name.
pub const DESCRIPTION_PRODUCT_LABEL: &'static str =
    "Genera una descripción atractiva para:\n- Producto: ";

/// Product description: what stands between the product's name and its category.
pub const DESCRIPTION_CATEGORY_LABEL: &'static str = "\n- Categoría: ";

/// Product description: what stands between the category and the features.
pub const DESCRIPTION_FEATURES_LABEL: &'static str = "\n- Características: ";

/// Product description: the bound on its length and its focus.
pub const DESCRIPTION_LIMIT: &'static str =
    "\n\nMáximo 150 palabras, enfocado en beneficios para el cliente.";

/// The instruction that a prompt carries: the context of the request, or the
/// default where the request has none.
pub open spec fn instruction(context: Option<Seq<char>>) -> Seq<char> {
    match context {
        Some(c) => c,
        None => DEFAULT_INSTRUCTION@,
    }
}

/// The prompt for `query` under `context`.
pub open spec fn prompt_text(query: Seq<char>, context: Option<Seq<char>>) -> Seq<char> {
    SYSTEM_OPEN@ + instruction(context) + USER_OPEN@ + query + ASSISTANT_OPEN@
}

/// The query that asks for an analysis of a product's stock.
pub open spec fn stock_query(
    product_name: Seq<char>,
    sales_data: Seq<char>,
    current_stock: int,
) -> Seq<char> {
    STOCK_PRODUCT_LABEL@ + product_name + STOCK_SALES_LABEL@ + sales_data + STOCK_LEVEL_LABEL@
        + decimal_digits(current_stock) + STOCK_UNIT@ + STOCK_QUESTIONS@
}

/// The query that asks for the description of a product.
pub open spec fn description_query(
    product_name: Seq<char>,
    category: Seq<char>,
    features: Seq<char>,
) -> Seq<char> {
    DESCRIPTION_PRODUCT_LABEL@ + product_name + DESCRIPTION_CATEGORY_LABEL@ + category
        + DESCRIPTION_FEATURES_LABEL@ + features + DESCRIPTION_LIMIT@
}

/// What an optional string holds.
pub open spec fn option_text(s: Option<&str>) -> Option<Seq<char>> {
    match s {
        Some(t) => Some(t@),
        None => None,
    }
}

/// The prompt holds the query as it was given.
pub proof fn lemma_prompt_contains_query(query: Seq<char>, context: Option<Seq<char>>)
    ensures
        contains(prompt_text(query, context), query),
{
    lemma_occurs_between(SYSTEM_OPEN@ + instruction(context) + USER_OPEN@, query, ASSISTANT_OPEN@);
}

/// The prompt holds its instruction as it was given: the context of the
/// request, or the default where the request has none.
pub proof fn lemma_prompt_contains_instruction(query: Seq<char>, context: Option<Seq<char>>)
    ensures
        contains(prompt_text(query, context), instruction(context)),
{
    let rest = USER_OPEN@ + query + ASSISTANT_OPEN@;
    lemma_occurs_between(SYSTEM_OPEN@, instruction(context), rest);
    assert(prompt_text(query, context) =~= SYSTEM_OPEN@ + instruction(context) + rest);
}

/// Under an instruction of the request's own, the default instruction stands
/// in the prompt exactly where the request itself brings it, in its
/// instruction or in its query: the template adds none.
pub proof fn lemma_default_instruction_comes_from_request(query: Seq<char>, context: Seq<char>)
    ensures
        contains(prompt_text(query, Some(context)), DEFAULT_INSTRUCTION@) <==> (contains(
            context,
            DEFAULT_INSTRUCTION@,
        ) || contains(query, DEFAULT_INSTRUCTION@)),
{
    let prompt = prompt_text(query, Some(context));
    let needle = DEFAULT_INSTRUCTION@;
    let head = SYSTEM_OPEN@;
    let mid = USER_OPEN@;
    let tail = ASSISTANT_OPEN@;
    reveal_strlit("<|im_start|>system\n");
    reveal_strlit("\n<|im_end|>\n<|im_start|>user\n");
    reveal_strlit("\n<|im_end|>\n<|im_start|>assistant");
    reveal_strlit("Eres un asistente agrícola experto para Agrotour.");
    assert(prompt =~= head + context + (mid + query + tail));
    assert(prompt =~= (head + context + mid) + query + tail);
    if contains(context, needle) {
        lemma_contains_in_part(head, context, mid + query + tail, needle);
    }
    if contains(query, needle) {
        lemma_contains_in_part(head + context + mid, query, tail, needle);
    }
    if contains(prompt, needle) {
        let at = choose|at: int| occurs_at(prompt, needle, at);
        assert(free_of(needle, '\n'));
        // The four line breaks that fence the instruction and the query.
        let system_end: int = head.len() - 1;
        let context_end: int = system_end + 1 + context.len();
        let user_start: int = context_end + mid.len() - 1;
        let query_end: int = user_start + 1 + query.len();
        assert(prompt[system_end] == head[system_end]);
        assert(prompt[context_end] == mid[0]);
        assert(prompt[user_start] == mid[mid.len() - 1]);
        assert(prompt[query_end] == tail[0]);
        lemma_occurrence_avoids(prompt, needle, at, system_end, '\n');
        lemma_occurrence_avoids(prompt, needle, at, context_end, '\n');
        lemma_occurrence_avoids(prompt, needle, at, user_start, '\n');
        lemma_occurrence_avoids(prompt, needle, at, query_end, '\n');
        if system_end < at && at + needle.len() <= context_end {
            lemma_occurrence_within(head, context, mid + query + tail, needle, at);
        } else {
            lemma_occurrence_within(head + context + mid, query, tail, needle, at);
        }
    }
}

/// The prompt holds the query as it was given and one instruction: the
/// context of the request, or the default where the request has none. Under a
/// context of the request's own the default is absent, unless the request
/// itself brings its text.
pub proof fn lemma_prompt_holds_query_and_one_instruction(
    query: Seq<char>,
    context: Option<Seq<char>>,
)
    requires
        context matches Some(c) ==> !contains(c, DEFAULT_INSTRUCTION@) && !contains(
            query,
            DEFAULT_INSTRUCTION@,
        ),
    ensures
        contains(prompt_text(query, context), query),
        (match context {
            Some(c) => contains(prompt_text(query, context), c) && !contains(
                prompt_text(query, context),
                DEFAULT_INSTRUCTION@,
            ),
            None => contains(prompt_text(query, context), DEFAULT_INSTRUCTION@),
        }),
{
    lemma_prompt_contains_query(query, context);
    lemma_prompt_contains_instruction(query, context);
    if let Some(c) = context {
        lemma_default_instruction_comes_from_request(query, c);
    }
}

/// Role markers are not escaped. A query that holds the marker of the user's
/// turn reads, in the prompt, as the end of the instruction and a query of
/// its own: two different requests then give one and the same prompt.
pub proof fn lemma_markers_are_not_escaped(
    context: Seq<char>,
    first: Seq<char>,
    second: Seq<char>,
)
    ensures
        prompt_text(first + USER_OPEN@ + second, Some(context)) == prompt_text(
            second,
            Some(context + USER_OPEN@ + first),
        ),
{
    assert(prompt_text(first + USER_OPEN@ + second, Some(context)) =~= prompt_text(
        second,
        Some(context + USER_OPEN@ + first),
    ));
}

/// The stock query holds the product's name and its sales as they were
/// given, and the stock count in decimal before its unit.
pub proof fn lemma_stock_query_contains_fields(
    product_name: Seq<char>,
    sales_data: Seq<char>,
    current_stock: int,
)
    ensures
        contains(stock_query(product_name, sales_data, current_stock), product_name),
        contains(stock_query(product_name, sales_data, current_stock), sales_data),
        contains(
            stock_query(product_name, sales_data, current_stock),
            decimal_digits(current_stock) + STOCK_UNIT@,
        ),
{
    let query = stock_query(product_name, sales_data, current_stock);
    let count = decimal_digits(current_stock);
    let after_name = STOCK_SALES_LABEL@ + sales_data + STOCK_LEVEL_LABEL@ + count + STOCK_UNIT@
        + STOCK_QUESTIONS@;
    let after_sales = STOCK_LEVEL_LABEL@ + count + STOCK_UNIT@ + STOCK_QUESTIONS@;
    let before_count = STOCK_PRODUCT_LABEL@ + product_name + STOCK_SALES_LABEL@ + sales_data
        + STOCK_LEVEL_LABEL@;
    lemma_occurs_between(STOCK_PRODUCT_LABEL@, product_name, after_name);
    assert(query =~= STOCK_PRODUCT_LABEL@ + product_name + after_name);
    lemma_occurs_between(
        STOCK_PRODUCT_LABEL@ + product_name + STOCK_SALES_LABEL@,
        sales_data,
        after_sales,
    );
    assert(query =~= STOCK_PRODUCT_LABEL@ + product_name + STOCK_SALES_LABEL@ + sales_data
        + after_sales);
    lemma_occurs_between(before_count, count + STOCK_UNIT@, STOCK_QUESTIONS@);
    assert(query =~= before_count + (count + STOCK_UNIT@) + STOCK_QUESTIONS@);
}

/// The description query holds the product's name, its category and its
/// features as they were given.
pub proof fn lemma_description_query_contains_fields(
    product_name: Seq<char>,
    category: Seq<char>,
    features: Seq<char>,
)
    ensures
        contains(description_query(product_name, category, features), product_name),
        contains(description_query(product_name, category, features), category),
        contains(description_query(product_name, category, features), features),
{
    let query = description_query(product_name, category, features);
    let after_name = DESCRIPTION_CATEGORY_LABEL@ + category + DESCRIPTION_FEATURES_LABEL@
        + features + DESCRIPTION_LIMIT@;
    let after_category = DESCRIPTION_FEATURES_LABEL@ + features + DESCRIPTION_LIMIT@;
    lemma_occurs_between(DESCRIPTION_PRODUCT_LABEL@, product_name, after_name);
    assert(query =~= DESCRIPTION_PRODUCT_LABEL@ + product_name + after_name);
    lemma_occurs_between(
        DESCRIPTION_PRODUCT_LABEL@ + product_name + DESCRIPTION_CATEGORY_LABEL@,
        category,
        after_category,
    );
    assert(query =~= DESCRIPTION_PRODUCT_LABEL@ + product_name + DESCRIPTION_CATEGORY_LABEL@
        + category + after_category);
    lemma_occurs_between(
        DESCRIPTION_PRODUCT_LABEL@ + product_name + DESCRIPTION_CATEGORY_LABEL@ + category
            + DESCRIPTION_FEATURES_LABEL@,
        features,
        DESCRIPTION_LIMIT@,
    );
}

/// Builds the query that asks whether to raise or lower the stock of a
/// product, when to restock it and at what price to sell it.
pub fn stock_analysis_query(
    product_name: &str,
    sales_data: &str,
    current_stock: i32,
) -> (query: String)
    ensures
        query@ == stock_query(product_name@, sales_data@, current_stock as int),
{
    let count = decimal_text(current_stock);
    let mut query = String::from_str(STOCK_PRODUCT_LABEL);
    query.append(product_name);
    query.append(STOCK_SALES_LABEL);
    query.append(sales_data);
    query.append(STOCK_LEVEL_LABEL);
    query.append(count.as_str());
    query.append(STOCK_UNIT);
    query.append(STOCK_QUESTIONS);
    query
}

/// Builds the query that asks for a description of a product for search and
/// sale, of at most 150 words.
pub fn product_description_query(
    product_name: &str,
    category: &str,
    features: &str,
) -> (query: String)
    ensures
        query@ == description_query(product_name@, category@, features@),
{
    let mut query = String::from_str(DESCRIPTION_PRODUCT_LABEL);
    query.append(product_name);
    query.append(DESCRIPTION_CATEGORY_LABEL);
    query.append(category);
    query.append(DESCRIPTION_FEATURES_LABEL);
    query.append(features);
    query.append(DESCRIPTION_LIMIT);
    query
}

} // verus!
